use vstd::prelude::*;

verus! {

/// The number of characters in the decimal form of `v`, a minus sign
/// included.
pub open spec fn decimal_len(v: int) -> nat
    decreases (if v < 0 { 1 - v } else { v }),
{
    if v < 0 {
        1 + decimal_len(-v)
    } else if v < 10 {
        1
    } else {
        1 + decimal_len(v / 10)
    }
}

/// `x`, or the largest `usize` where `x` is larger: the caret stops at the
/// far edge of what a screen position can hold.
pub open spec fn capped(x: int) -> int {
    if x > usize::MAX {
        usize::MAX as int
    } else {
        x
    }
}

/// Where a terminal puts its next input or output, as a 1-based
/// `(row, col)` screen position. It serves the layout alone; nothing a
/// program computes depends on it.
#[derive(Clone, Copy, Debug)]
pub struct Console {
    cursor_pos: (usize, usize),
}

/// The first screen row below the area where the grid is drawn.
pub const CONSOLE_ROW: usize = 30;

impl Console {
    /// The caret, `(row, col)`.
    pub closed spec fn caret(&self) -> (int, int) {
        (self.cursor_pos.0 as int, self.cursor_pos.1 as int)
    }

    /// A console whose caret stands at the start of its first row.
    pub fn new() -> (r: Console)
        ensures
            r.caret() == (CONSOLE_ROW as int, 1int),
    {
        Console { cursor_pos: (CONSOLE_ROW, 1) }
    }

    /// The caret, `(row, col)`.
    pub fn cursor(&self) -> (r: (usize, usize))
        ensures
            (r.0 as int, r.1 as int) == self.caret(),
    {
        self.cursor_pos
    }

    /// An integer was read from a line of input: the caret goes to the start
    /// of the next row.
    pub fn line_read(&mut self)
        ensures
            final(self).caret() == (capped(old(self).caret().0 + 1), 1int),
    {
        self.cursor_pos = (self.cursor_pos.0.saturating_add(1), 1);
    }

    /// Character `c` was read: after a line feed the caret goes to the start
    /// of the next row, and stays otherwise.
    pub fn char_read(&mut self, c: char)
        ensures
            final(self).caret() == if c == '\n' {
                (capped(old(self).caret().0 + 1), 1int)
            } else {
                old(self).caret()
            },
    {
        if c == '\n' {
            self.cursor_pos = (self.cursor_pos.0.saturating_add(1), 1);
        }
    }

    /// `val` was written in decimal with a separator after it: the caret
    /// moves right past both.
    pub fn int_written(&mut self, val: i32)
        ensures
            final(self).caret() == (old(self).caret().0, capped(old(self).caret().1 + decimal_len(val as int) + 1)),
    {
        let n = decimal_width(val);
        self.cursor_pos.1 = self.cursor_pos.1.saturating_add(n + 1);
    }

    /// One character was written: the caret moves one column right.
    pub fn char_written(&mut self)
        ensures
            final(self).caret() == (old(self).caret().0, capped(old(self).caret().1 + 1)),
    {
        self.cursor_pos.1 = self.cursor_pos.1.saturating_add(1);
    }
}

/// Ten to the power `k`.
pub open spec fn pow10(k: nat) -> int
    decreases k,
{
    if k == 0 {
        1
    } else {
        10 * pow10((k - 1) as nat)
    }
}

/// A number below `10^k` has at most `k` digits.
proof fn lemma_decimal_len_bound(v: int, k: nat)
    requires
        0 <= v < pow10(k),
        k >= 1,
    ensures
        decimal_len(v) <= k,
    decreases k,
{
    if v >= 10 {
        assert(k >= 2) by {
            if k == 1 {
                assert(pow10(1) == 10 * pow10(0));
            }
        }
        assert(v / 10 < pow10((k - 1) as nat));
        lemma_decimal_len_bound(v / 10, (k - 1) as nat);
    }
}

/// The number of characters in the decimal form of `val`.
pub fn decimal_width(val: i32) -> (r: usize)
    ensures
        r == decimal_len(val as int),
        r <= 11,
{
    let mut m: i64 = if val < 0 { -(val as i64) } else { val as i64 };
    let mut n: usize = 1;
    proof {
        reveal_with_fuel(pow10, 11);
        lemma_decimal_len_bound(m as int, 10);
    }
    while m >= 10
        invariant
            0 <= m <= 2147483648,
            1 <= n,
            n + decimal_len(m as int) <= 11,
            n + decimal_len(m as int) - 1 == decimal_len(if val < 0 { -(val as int) } else { val as int }),
        decreases m,
    {
        m = m / 10;
        n = n + 1;
    }
    if val < 0 { n + 1 } else { n }
}

} // verus!
