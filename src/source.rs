use vstd::prelude::*;

verus! {

/// The pieces of `t` between line feeds, in order; there is always one more
/// piece than there are line feeds.
pub open spec fn pieces(t: Seq<char>) -> Seq<Seq<char>>
    decreases t.len(),
{
    if t.len() == 0 {
        seq![Seq::empty()]
    } else {
        let r = pieces(t.drop_last());
        if t.last() == '\n' {
            r.push(Seq::empty())
        } else {
            r.update(r.len() - 1, r.last().push(t.last()))
        }
    }
}

/// A line without the carriage return that may end it.
pub open spec fn strip_cr(l: Seq<char>) -> Seq<char> {
    if l.len() > 0 && l.last() == '\r' {
        l.drop_last()
    } else {
        l
    }
}

/// One byte per character: the low eight bits of its code point.
pub open spec fn bytes_of(l: Seq<char>) -> Seq<u8> {
    l.map_values(|c: char| c as u8)
}

/// The lines of a program text as rows of bytes. Lines end at a line feed
/// (a carriage return before it is dropped) or at the end of the text; a
/// text that ends with a line feed has no empty line after it.
pub open spec fn lines_of(t: Seq<char>) -> Seq<Seq<u8>> {
    let p = pieces(t);
    let done = p.subrange(0, p.len() - 1).map_values(|l: Seq<char>| bytes_of(strip_cr(l)));
    if p.last().len() == 0 {
        done
    } else {
        done.push(bytes_of(p.last()))
    }
}

proof fn lemma_pieces_nonempty(t: Seq<char>)
    ensures
        pieces(t).len() >= 1,
    decreases t.len(),
{
    if t.len() > 0 {
        lemma_pieces_nonempty(t.drop_last());
    }
}

/// The bytes of `l`, one per character, without a final carriage return
/// where `strip` is set.
fn to_bytes(l: &Vec<char>, strip: bool) -> (r: Vec<u8>)
    ensures
        r@ == bytes_of(if strip { strip_cr(l@) } else { l@ }),
{
    let mut n = l.len();
    if strip && n > 0 && l[n - 1] == '\r' {
        n = n - 1;
    }
    let ghost src = if strip { strip_cr(l@) } else { l@ };
    let mut r: Vec<u8> = Vec::new();
    let mut i: usize = 0;
    while i < n
        invariant
            n <= l.len(),
            src == l@.subrange(0, n as int),
            i <= n,
            r@ == bytes_of(src.subrange(0, i as int)),
        decreases n - i,
    {
        r.push(#[verifier::truncate] (l[i] as u8));
        i += 1;
        assert(bytes_of(src.subrange(0, i as int)) =~= bytes_of(src.subrange(0, i - 1)).push(l@[i - 1] as u8));
    }
    assert(src.subrange(0, n as int) =~= src);
    r
}

/// Splits a program text into lines of bytes, one byte per character.
pub fn source_lines(text: &str) -> (r: Vec<Vec<u8>>)
    ensures
        r@.map_values(|l: Vec<u8>| l@) == lines_of(text@),
{
    broadcast use vstd::string::axiom_spec_iter;
    let mut lines: Vec<Vec<u8>> = Vec::new();
    let mut cur: Vec<char> = Vec::new();
    for c in it: text.chars()
        invariant
            it.seq() == text@,
            ({
                let p = pieces(text@.subrange(0, it.index() as int));
                &&& p.len() >= 1
                &&& cur@ == p.last()
                &&& lines@.map_values(|l: Vec<u8>| l@) == p.subrange(0, p.len() - 1).map_values(
                    |l: Seq<char>| bytes_of(strip_cr(l)),
                )
            }),
    {
        let ghost before = text@.subrange(0, it.index() as int);
        let ghost after = text@.subrange(0, it.index() + 1);
        proof {
            assert(after.drop_last() =~= before);
            lemma_pieces_nonempty(before);
        }
        if c == '\n' {
            let ghost pb = pieces(before);
            let ghost old_lines = lines@;
            let b = to_bytes(&cur, true);
            proof {
                assert(pieces(after) == pb.push(Seq::empty()));
                assert(pieces(after).subrange(0, pieces(after).len() - 1) =~= pb);
                assert(pb =~= pb.subrange(0, pb.len() - 1).push(pb.last()));
            }
            lines.push(b);
            cur = Vec::new();
            proof {
                let f = |l: Seq<char>| bytes_of(strip_cr(l));
                let g = |l: Vec<u8>| l@;
                assert(lines@.map_values(g) =~= old_lines.map_values(g).push(b@));
                assert(pb.map_values(f) =~= pb.subrange(0, pb.len() - 1).map_values(f).push(f(pb.last())));
            }
            assert(lines@.map_values(|l: Vec<u8>| l@) =~= pieces(after).subrange(0, pieces(after).len() - 1).map_values(
                |l: Seq<char>| bytes_of(strip_cr(l)),
            ));
        } else {
            cur.push(c);
            assert(lines@.map_values(|l: Vec<u8>| l@) =~= pieces(after).subrange(0, pieces(after).len() - 1).map_values(
                |l: Seq<char>| bytes_of(strip_cr(l)),
            ));
        }
    }
    proof {
        assert(text@.subrange(0, text@.len() as int) =~= text@);
    }
    if cur.len() > 0 {
        let b = to_bytes(&cur, false);
        lines.push(b);
        assert(lines@.map_values(|l: Vec<u8>| l@) =~= lines_of(text@));
    }
    lines
}

} // verus!
