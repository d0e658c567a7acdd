use vstd::prelude::*;
use crate::memory::{MEM_WIDTH, MEM_HEIGHT};
use vstd::arithmetic::div_mod::{lemma_add_mod_noop, lemma_mod_add_multiples_vanish, lemma_small_mod};

verus! {

/// The four directions in which the program counter can move.
#[derive(Clone, Copy, Debug, PartialEq, Eq, Structural)]
pub enum Direction {
    Up,
    Down,
    Right,
    Left,
}

/// The cell reached from `(row, col)` by one step in direction `dir`, on a
/// grid that wraps around at every edge.
pub open spec fn step(row: int, col: int, dir: Direction) -> (int, int) {
    match dir {
        Direction::Up => ((row + MEM_HEIGHT - 1) % (MEM_HEIGHT as int), col),
        Direction::Down => ((row + 1) % (MEM_HEIGHT as int), col),
        Direction::Right => (row, (col + 1) % (MEM_WIDTH as int)),
        Direction::Left => (row, (col + MEM_WIDTH - 1) % (MEM_WIDTH as int)),
    }
}

/// The cell reached from `(row, col)` by `n` steps in direction `dir`.
pub open spec fn steps(row: int, col: int, dir: Direction, n: nat) -> (int, int)
    decreases n,
{
    if n == 0 {
        (row, col)
    } else {
        let p = steps(row, col, dir, (n - 1) as nat);
        step(p.0, p.1, dir)
    }
}

/// Whether `(row, col)` addresses a cell of the grid.
pub open spec fn in_grid(row: int, col: int) -> bool {
    0 <= row < MEM_HEIGHT && 0 <= col < MEM_WIDTH
}

/// The number of moves after which a counter moving in direction `dir`
/// comes back to where it started: the grid's height for vertical moves, its
/// width for horizontal ones.
pub open spec fn period(dir: Direction) -> nat {
    match dir {
        Direction::Up | Direction::Down => MEM_HEIGHT as nat,
        Direction::Right | Direction::Left => MEM_WIDTH as nat,
    }
}

/// Where `n` moves in direction `dir` lead, in closed form.
pub open spec fn shifted(row: int, col: int, dir: Direction, n: nat) -> (int, int) {
    match dir {
        Direction::Up => ((row - n) % (MEM_HEIGHT as int), col),
        Direction::Down => ((row + n) % (MEM_HEIGHT as int), col),
        Direction::Right => (row, (col + n) % (MEM_WIDTH as int)),
        Direction::Left => (row, (col - n) % (MEM_WIDTH as int)),
    }
}

/// One move after `a` moves towards lower indices, modulo `m`.
proof fn lemma_step_back(a: int, m: int)
    requires
        m > 0,
    ensures
        ((a % m) + m - 1) % m == (a - 1) % m,
{
    lemma_add_mod_noop(a, m - 1, m);
    lemma_small_mod((m - 1) as nat, m as nat);
    lemma_mod_add_multiples_vanish(a - 1, m);
}

/// One move after `a` moves towards higher indices, modulo `m`.
proof fn lemma_step_forward(a: int, m: int)
    requires
        m > 1,
    ensures
        ((a % m) + 1) % m == (a + 1) % m,
{
    lemma_add_mod_noop(a, 1, m);
    lemma_small_mod(1, m as nat);
}

/// `n` moves from a cell of the grid, in closed form.
pub proof fn lemma_steps_shifted(row: int, col: int, dir: Direction, n: nat)
    requires
        in_grid(row, col),
    ensures
        steps(row, col, dir, n) == shifted(row, col, dir, n),
    decreases n,
{
    if n == 0 {
        lemma_small_mod(row as nat, MEM_HEIGHT as nat);
        lemma_small_mod(col as nat, MEM_WIDTH as nat);
    } else {
        lemma_steps_shifted(row, col, dir, (n - 1) as nat);
        match dir {
            Direction::Up => lemma_step_back(row - (n - 1), MEM_HEIGHT as int),
            Direction::Down => lemma_step_forward(row + (n - 1), MEM_HEIGHT as int),
            Direction::Right => lemma_step_forward(col + (n - 1), MEM_WIDTH as int),
            Direction::Left => lemma_step_back(col - (n - 1), MEM_WIDTH as int),
        }
    }
}

/// The grid is a torus: from any cell, moving in one direction as many times
/// as the grid is tall (vertically) or wide (horizontally) comes back to the
/// starting cell.
pub proof fn lemma_wrap_around(row: int, col: int, dir: Direction)
    requires
        in_grid(row, col),
    ensures
        steps(row, col, dir, period(dir)) == (row, col),
{
    lemma_steps_shifted(row, col, dir, period(dir));
    lemma_small_mod(row as nat, MEM_HEIGHT as nat);
    lemma_small_mod(col as nat, MEM_WIDTH as nat);
    lemma_mod_add_multiples_vanish(row - MEM_HEIGHT, MEM_HEIGHT as int);
    lemma_mod_add_multiples_vanish(col - MEM_WIDTH, MEM_WIDTH as int);
    lemma_mod_add_multiples_vanish(row, MEM_HEIGHT as int);
    lemma_mod_add_multiples_vanish(col, MEM_WIDTH as int);
}

/// A position on the grid and the direction of the next move.
#[derive(Debug)]
pub struct ProgramCounter {
    dir: Direction,
    pc: (usize, usize),
}

impl ProgramCounter {
    /// The current position, `(row, col)`.
    pub closed spec fn position(&self) -> (int, int) {
        (self.pc.0 as int, self.pc.1 as int)
    }

    /// The direction of the next move.
    pub closed spec fn direction(&self) -> Direction {
        self.dir
    }

    /// The position lies on the grid.
    pub closed spec fn wf(&self) -> bool {
        in_grid(self.pc.0 as int, self.pc.1 as int)
    }

    /// A counter facing right, placed in the last column of the first row so
    /// that its first move lands on `(0, 0)`.
    pub fn new() -> (r: ProgramCounter)
        ensures
            r.wf(),
            r.position() == (0int, MEM_WIDTH - 1),
            r.direction() == Direction::Right,
            step(r.position().0, r.position().1, r.direction()) == (0int, 0int),
    {
        ProgramCounter { dir: Direction::Right, pc: (0, MEM_WIDTH - 1) }
    }

    /// Moves one cell in the current direction, wrapping at the edges.
    pub fn next(&mut self)
        requires
            old(self).wf(),
        ensures
            final(self).wf(),
            final(self).position() == step(old(self).position().0, old(self).position().1, old(self).direction()),
            final(self).direction() == old(self).direction(),
    {
        match self.dir {
            Direction::Up => self.pc.0 = (self.pc.0 + MEM_HEIGHT - 1) % MEM_HEIGHT,
            Direction::Down => self.pc.0 = (self.pc.0 + 1) % MEM_HEIGHT,
            Direction::Right => self.pc.1 = (self.pc.1 + 1) % MEM_WIDTH,
            Direction::Left => self.pc.1 = (self.pc.1 + MEM_WIDTH - 1) % MEM_WIDTH,
        }
    }

    /// The current position, `(row, col)`.
    pub fn pos(&self) -> (r: (usize, usize))
        ensures
            (r.0 as int, r.1 as int) == self.position(),
            self.wf() ==> in_grid(r.0 as int, r.1 as int),
    {
        self.pc
    }

    /// The direction of the next move.
    pub fn dir(&self) -> (r: Direction)
        ensures
            r == self.direction(),
    {
        self.dir
    }

    /// Sets the direction of the next move; the position is kept.
    pub fn set_direction(&mut self, dir: Direction)
        ensures
            final(self).direction() == dir,
            final(self).position() == old(self).position(),
            final(self).wf() == old(self).wf(),
    {
        self.dir = dir;
    }
}

/// Two counters are equal when they stand on the same cell, whatever their
/// directions.
impl PartialEq for ProgramCounter {
    fn eq(&self, other: &ProgramCounter) -> (r: bool)
        ensures
            r == (self.position() == other.position()),
    {
        self.pc.0 == other.pc.0 && self.pc.1 == other.pc.1
    }
}

impl vstd::std_specs::cmp::PartialEqSpecImpl for ProgramCounter {
    open spec fn obeys_eq_spec() -> bool {
        true
    }

    open spec fn eq_spec(&self, other: &ProgramCounter) -> bool {
        self.position() == other.position()
    }
}

} // verus!
