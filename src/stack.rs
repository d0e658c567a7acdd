use vstd::prelude::*;

verus! {

/// The error of popping an empty stack.
#[derive(Clone, Copy, Debug, PartialEq, Eq, Structural)]
pub struct EmptyStackPoppedError {}

/// The instructions that pop operands, each with the number of values it
/// pops in parentheses.
pub const POP_COUNTS: &'static str = "_(1) |(1) .(1) ,(1) +(2) -(2) *(2) /(2) %(2) `(2) !(1) :(1) \\(2) $(1) g(2) p(3)";

/// The cause of an empty-stack pop, as `EmptyStackPoppedError::message`
/// states it before the table of pop counts.
pub const EMPTY_POP_CAUSE: &'static str = "popped an empty stack: this happens when one of these instructions runs with fewer values on the stack than it pops (the number in parentheses): ";

impl EmptyStackPoppedError {
    /// A description of the error: its cause, and each instruction that
    /// pops with the number of values it pops.
    pub fn message(&self) -> (r: String)
        ensures
            r@ == EMPTY_POP_CAUSE@ + POP_COUNTS@,
    {
        let mut r = String::from_str(EMPTY_POP_CAUSE);
        r.append(POP_COUNTS);
        r
    }
}

/// The stack after `xs` is pushed onto `s`, first element first.
pub open spec fn pushed(s: Seq<i32>, xs: Seq<i32>) -> Seq<i32>
    decreases xs.len(),
{
    if xs.len() == 0 {
        s
    } else {
        pushed(s, xs.drop_last()).push(xs.last())
    }
}

/// The values that `n` pops take off `s`, in the order they come, and what
/// is left; `None` where `s` holds fewer than `n` values.
pub open spec fn popped(s: Seq<i32>, n: nat) -> Option<(Seq<i32>, Seq<i32>)>
    decreases n,
{
    if n == 0 {
        Some((Seq::empty(), s))
    } else if s.len() == 0 {
        None
    } else {
        match popped(s.drop_last(), (n - 1) as nat) {
            Some((vals, rest)) => Some((seq![s.last()].add(vals), rest)),
            None => None,
        }
    }
}

/// Last in, first out: pushing `xs` onto any stack and then popping as many
/// times as `xs` is long gives back the values of `xs` in reverse order and
/// leaves the stack as it was.
pub proof fn lemma_last_in_first_out(s: Seq<i32>, xs: Seq<i32>)
    ensures
        popped(pushed(s, xs), xs.len()) == Some((xs.reverse(), s)),
    decreases xs.len(),
{
    if xs.len() > 0 {
        let p = pushed(s, xs.drop_last());
        assert(pushed(s, xs).drop_last() == p);
        lemma_last_in_first_out(s, xs.drop_last());
        assert(seq![xs.last()].add(xs.drop_last().reverse()) =~= xs.reverse());
    } else {
        assert(xs.reverse() =~= Seq::<i32>::empty());
    }
}

/// A last-in, first-out stack of `i32` values without a bound on its depth.
#[derive(Debug, PartialEq, Eq)]
pub struct Stack {
    body: Vec<i32>,
}

impl View for Stack {
    type V = Seq<i32>;

    /// The values from the bottom to the top.
    closed spec fn view(&self) -> Seq<i32> {
        self.body@
    }
}

impl Stack {
    /// An empty stack.
    pub fn new() -> (r: Stack)
        ensures
            r@ == Seq::<i32>::empty(),
    {
        Stack { body: Vec::new() }
    }

    /// Puts `val` on top.
    pub fn push(&mut self, val: i32)
        ensures
            final(self)@ == old(self)@.push(val),
    {
        self.body.push(val);
    }

    /// Takes the top value off and returns it; fails on an empty stack,
    /// which it leaves as it is.
    pub fn pop(&mut self) -> (r: Result<i32, EmptyStackPoppedError>)
        ensures
            old(self)@.len() == 0 <==> r.is_err(),
            old(self)@.len() == 0 ==> final(self)@ == old(self)@,
            old(self)@.len() > 0 ==> r == Ok::<i32, EmptyStackPoppedError>(old(self)@.last())
                && final(self)@ == old(self)@.drop_last(),
    {
        match self.body.pop() {
            Some(v) => Ok(v),
            None => Err(EmptyStackPoppedError {}),
        }
    }

    /// The top value.
    pub fn top(&self) -> (r: i32)
        requires
            self@.len() > 0,
        ensures
            r == self@.last(),
    {
        self.body[self.body.len() - 1]
    }

    /// The number of values on the stack.
    pub fn len(&self) -> (r: usize)
        ensures
            r == self@.len(),
    {
        self.body.len()
    }

    /// The value `depth` places below the top (`0` is the top).
    pub fn peek(&self, depth: usize) -> (r: i32)
        requires
            depth < self@.len(),
        ensures
            r == self@[self@.len() - 1 - depth],
    {
        self.body[self.body.len() - 1 - depth]
    }
}

} // verus!
