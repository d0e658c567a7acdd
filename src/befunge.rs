use vstd::prelude::*;
use crate::memory::{Memory, grid_shaped, grid_of, MEM_WIDTH, MEM_HEIGHT};
use crate::program_counter::{Direction, ProgramCounter, in_grid, step, steps};
use crate::stack::{Stack, POP_COUNTS};
use crate::source::{source_lines, lines_of};

verus! {

/// `^`: turn up.
pub const GO_UP: u8 = 94;

/// `v`: turn down.
pub const GO_DOWN: u8 = 118;

/// `>`: turn right.
pub const GO_RIGHT: u8 = 62;

/// `<`: turn left.
pub const GO_LEFT: u8 = 60;

/// `_`: pop; go right on zero, else left.
pub const IF_HORIZONTAL: u8 = 95;

/// `|`: pop; go down on zero, else up.
pub const IF_VERTICAL: u8 = 124;

/// `?`: turn in a random direction.
pub const GO_RANDOM: u8 = 63;

/// ` `: do nothing.
pub const NOP: u8 = 32;

/// `#`: skip the next cell.
pub const BRIDGE: u8 = 35;

/// `@`: stop the run.
pub const HALT: u8 = 64;

/// `0`: push 0 (the digits up to `9` push their value).
pub const DIGIT_ZERO: u8 = 48;

/// `9`: push 9.
pub const DIGIT_NINE: u8 = 57;

/// `"`: enter or leave string mode.
pub const QUOTE: u8 = 34;

/// `&`: read an integer and push it.
pub const INPUT_INT: u8 = 38;

/// `~`: read a character and push its code point.
pub const INPUT_CHAR: u8 = 126;

/// `.`: pop and write as an integer.
pub const OUTPUT_INT: u8 = 46;

/// `,`: pop and write as a character.
pub const OUTPUT_CHAR: u8 = 44;

/// `+`: pop y, x; push x + y.
pub const PLUS: u8 = 43;

/// `-`: pop y, x; push x - y.
pub const MINUS: u8 = 45;

/// `*`: pop y, x; push x * y.
pub const TIMES: u8 = 42;

/// `/`: pop y, x; push x / y.
pub const DIVIDE: u8 = 47;

/// `%`: pop y, x; push x % y.
pub const MODULO: u8 = 37;

/// Backquote: pop y, x; push 1 if x > y, else 0.
pub const GREATER: u8 = 96;

/// `!`: pop x; push 1 if x is 0, else 0.
pub const NOT: u8 = 33;

/// `:`: duplicate the top value.
pub const DUP: u8 = 58;

/// `\`: swap the two top values.
pub const SWAP: u8 = 92;

/// `$`: drop the top value.
pub const DISCARD: u8 = 36;

/// `g`: pop row, col; push the byte there.
pub const GET: u8 = 103;

/// `p`: pop row, col, value; store the value's low byte there.
pub const PUT: u8 = 112;

/// Why a run stops before it reaches a halt instruction.
#[derive(Clone, Copy, Debug, PartialEq, Eq, Structural)]
pub enum BefungeError {
    /// The instruction (the byte given) needed more operands than the stack held.
    StackUnderflow(u8),
    /// `g` or `p` addressed a cell outside the grid.
    OutOfBounds,
    /// Integer input was not a base-10 `i32`.
    ParseError,
    /// The byte given is no instruction.
    UnknownInstruction(u8),
    /// `/` or `%` with a zero divisor.
    DivisionByZero,
}

/// The decimal digit that writes a count of operands (at most three).
pub open spec fn count_text(n: nat) -> Seq<char> {
    if n == 1 {
        "1"@
    } else if n == 2 {
        "2"@
    } else if n == 3 {
        "3"@
    } else {
        "0"@
    }
}

/// The decimal digit that writes a count of operands (at most three).
fn count_str(n: usize) -> (r: &'static str)
    ensures
        r@ == count_text(n as nat),
{
    if n == 1 {
        "1"
    } else if n == 2 {
        "2"
    } else if n == 3 {
        "3"
    } else {
        "0"
    }
}

/// What `BefungeError::message` says of a stack underflow, before the
/// number of operands the failing instruction pops.
pub const UNDERFLOW_CAUSE: &'static str = "stack underflow: the instruction pops ";

/// What `BefungeError::message` says of a stack underflow, after the number
/// of operands and before the table of pop counts.
pub const UNDERFLOW_TABLE_INTRO: &'static str = " operand(s), more than the stack held; values popped per instruction: ";

/// The description of each error. A stack underflow names the number of
/// operands the failing instruction pops, then lists every instruction that
/// pops with its count.
pub open spec fn error_text(e: BefungeError) -> Seq<char> {
    match e {
        BefungeError::StackUnderflow(c) => UNDERFLOW_CAUSE@ + count_text(operands(c)) + UNDERFLOW_TABLE_INTRO@
            + POP_COUNTS@,
        BefungeError::OutOfBounds => "a grid access was outside the grid"@,
        BefungeError::ParseError => "the input was not an integer"@,
        BefungeError::UnknownInstruction(_) => "a cell held no instruction"@,
        BefungeError::DivisionByZero => "division by zero"@,
    }
}

impl BefungeError {
    /// A description of the error; see `error_text`.
    pub fn message(&self) -> (r: String)
        ensures
            r@ == error_text(*self),
    {
        match self {
            BefungeError::StackUnderflow(c) => {
                let mut r = String::from_str(UNDERFLOW_CAUSE);
                r.append(count_str(operand_count(*c)));
                r.append(UNDERFLOW_TABLE_INTRO);
                r.append(POP_COUNTS);
                r
            },
            BefungeError::OutOfBounds => String::from_str("a grid access was outside the grid"),
            BefungeError::ParseError => String::from_str("the input was not an integer"),
            BefungeError::UnknownInstruction(_) => String::from_str("a cell held no instruction"),
            BefungeError::DivisionByZero => String::from_str("division by zero"),
        }
    }
}

/// What a tick asks of its surroundings once it has executed.
#[derive(Clone, Copy, Debug, PartialEq, Eq, Structural)]
pub enum Effect {
    /// Nothing: go on with the next tick.
    Continue,
    /// The program halted.
    Halt,
    /// Write the integer in decimal.
    WriteInt(i32),
    /// Write the byte as a character.
    WriteChar(u8),
    /// Read an integer and hand it to `supply_int`.
    ReadInt,
    /// Read a character and hand it to `supply_char`.
    ReadChar,
    /// Draw a number and hand it to `choose_direction`.
    RandomDirection,
}

/// The state of an interpreter as a mathematical value.
pub struct Machine {
    pub grid: Seq<Seq<u8>>,
    pub stack: Seq<i32>,
    pub row: int,
    pub col: int,
    pub dir: Direction,
    pub string_mode: bool,
}

/// The grid has its shape and the position lies on it.
pub open spec fn machine_wf(m: Machine) -> bool {
    grid_shaped(m.grid) && in_grid(m.row, m.col)
}

/// How many operands instruction `c` takes off the stack.
pub open spec fn operands(c: u8) -> nat {
    if c == IF_HORIZONTAL || c == IF_VERTICAL || c == OUTPUT_INT || c == OUTPUT_CHAR || c == NOT || c == DUP || c == DISCARD {
        1
    } else if c == PLUS || c == MINUS || c == TIMES || c == DIVIDE || c == MODULO || c == GREATER
        || c == SWAP || c == GET {
        2
    } else if c == PUT {
        3
    } else {
        0
    }
}

/// Whether `c` is one of the arithmetic and comparison instructions.
pub open spec fn is_arith(c: u8) -> bool {
    c == PLUS || c == MINUS || c == TIMES || c == DIVIDE || c == MODULO || c == GREATER
}

/// The result of arithmetic instruction `c` on `x` (pushed first) and `y`
/// (pushed last). Sums, differences and products wrap around; division
/// truncates towards zero; the one quotient that overflows, `i32::MIN / -1`,
/// wraps to `i32::MIN`, and its remainder is `0`; a zero divisor is an error.
pub open spec fn arith(c: u8, x: i32, y: i32) -> Result<i32, BefungeError> {
    if c == PLUS {
        Ok(x.wrapping_add(y))
    } else if c == MINUS {
        Ok(x.wrapping_sub(y))
    } else if c == TIMES {
        Ok(x.wrapping_mul(y))
    } else if c == DIVIDE || c == MODULO {
        if y == 0 {
            Err(BefungeError::DivisionByZero)
        } else if c == DIVIDE {
            Ok(match x.checked_div(y) { Some(q) => q, None => i32::MIN })
        } else {
            Ok(match x.checked_rem(y) { Some(q) => q, None => 0i32 })
        }
    } else {
        Ok(if x > y { 1i32 } else { 0i32 })
    }
}

/// The machine with its stack replaced.
pub open spec fn with_stack(m: Machine, s: Seq<i32>) -> Machine {
    Machine { stack: s, ..m }
}

/// The machine with its direction replaced.
pub open spec fn with_dir(m: Machine, d: Direction) -> Machine {
    Machine { dir: d, ..m }
}

/// The direction that a `?` instruction takes for a number drawn at random.
pub open spec fn direction_of(draw: u32) -> Direction {
    if draw % 4 == 0 {
        Direction::Up
    } else if draw % 4 == 1 {
        Direction::Down
    } else if draw % 4 == 2 {
        Direction::Right
    } else {
        Direction::Left
    }
}

/// A fresh session on a program given as lines of bytes: an empty stack,
/// string mode off, and the counter facing right in the last column of the
/// first row, so that its first move enters `(0, 0)`.
pub open spec fn initial(lines: Seq<Seq<u8>>) -> Machine {
    Machine {
        grid: grid_of(lines),
        stack: Seq::empty(),
        row: 0,
        col: MEM_WIDTH - 1,
        dir: Direction::Right,
        string_mode: false,
    }
}

/// A program that writes `Hello World!` and halts.
pub const HELLO_WORLD: &'static str = "v @_       v\n>0\"!dlroW\"v \nv  :#     < \n>\" ,olleH\" v\n   ^       <";

/// A program that writes the factorial of 5 and halts.
pub const FACTORIAL: &'static str = "5 100p:v     \nv *g00:_00g.@\n>00p1-:^     ";

/// What executing byte `c` does to machine `m`, whose counter already stands
/// on the cell that holds `c`.
pub open spec fn instruction(m: Machine, c: u8) -> (Machine, Result<Effect, BefungeError>) {
    let s = m.stack;
    let n = s.len();
    let y = s[n - 1];
    let x = s[n - 2];
    let z = s[n - 3];
    if m.string_mode {
        if c == QUOTE {
            (Machine { string_mode: false, ..m }, Ok(Effect::Continue))
        } else {
            (with_stack(m, s.push(c as i32)), Ok(Effect::Continue))
        }
    } else if n < operands(c) {
        (m, Err(BefungeError::StackUnderflow(c)))
    } else if c == GO_UP {
        (with_dir(m, Direction::Up), Ok(Effect::Continue))
    } else if c == GO_DOWN {
        (with_dir(m, Direction::Down), Ok(Effect::Continue))
    } else if c == GO_RIGHT {
        (with_dir(m, Direction::Right), Ok(Effect::Continue))
    } else if c == GO_LEFT {
        (with_dir(m, Direction::Left), Ok(Effect::Continue))
    } else if c == IF_HORIZONTAL {
        (with_dir(with_stack(m, s.drop_last()), if y == 0 { Direction::Right } else { Direction::Left }),
            Ok(Effect::Continue))
    } else if c == IF_VERTICAL {
        (with_dir(with_stack(m, s.drop_last()), if y == 0 { Direction::Down } else { Direction::Up }),
            Ok(Effect::Continue))
    } else if c == GO_RANDOM {
        (m, Ok(Effect::RandomDirection))
    } else if c == NOP {
        (m, Ok(Effect::Continue))
    } else if c == BRIDGE {
        let p = step(m.row, m.col, m.dir);
        (Machine { row: p.0, col: p.1, ..m }, Ok(Effect::Continue))
    } else if c == HALT {
        (m, Ok(Effect::Halt))
    } else if DIGIT_ZERO <= c <= DIGIT_NINE {
        (with_stack(m, s.push((c - DIGIT_ZERO) as i32)), Ok(Effect::Continue))
    } else if c == QUOTE {
        (Machine { string_mode: true, ..m }, Ok(Effect::Continue))
    } else if c == INPUT_INT {
        (m, Ok(Effect::ReadInt))
    } else if c == INPUT_CHAR {
        (m, Ok(Effect::ReadChar))
    } else if c == OUTPUT_INT {
        (with_stack(m, s.drop_last()), Ok(Effect::WriteInt(y)))
    } else if c == OUTPUT_CHAR {
        (with_stack(m, s.drop_last()), Ok(Effect::WriteChar(y as u8)))
    } else if is_arith(c) {
        match arith(c, x, y) {
            Ok(v) => (with_stack(m, s.subrange(0, n - 2).push(v)), Ok(Effect::Continue)),
            Err(e) => (m, Err(e)),
        }
    } else if c == NOT {
        (with_stack(m, s.drop_last().push(if y == 0 { 1i32 } else { 0i32 })), Ok(Effect::Continue))
    } else if c == DUP {
        (with_stack(m, s.push(y)), Ok(Effect::Continue))
    } else if c == SWAP {
        (with_stack(m, s.subrange(0, n - 2).push(y).push(x)), Ok(Effect::Continue))
    } else if c == DISCARD {
        (with_stack(m, s.drop_last()), Ok(Effect::Continue))
    } else if c == GET {
        if in_grid(y as int, x as int) {
            (with_stack(m, s.subrange(0, n - 2).push(m.grid[y as int][x as int] as i32)), Ok(Effect::Continue))
        } else {
            (m, Err(BefungeError::OutOfBounds))
        }
    } else if c == PUT {
        if in_grid(y as int, x as int) {
            (Machine {
                grid: m.grid.update(y as int, m.grid[y as int].update(x as int, z as u8)),
                stack: s.subrange(0, n - 3),
                ..m
            }, Ok(Effect::Continue))
        } else {
            (m, Err(BefungeError::OutOfBounds))
        }
    } else {
        (m, Err(BefungeError::UnknownInstruction(c)))
    }
}

/// One tick: the counter moves one cell, and the byte found there is
/// executed.
pub open spec fn tick_spec(m: Machine) -> (Machine, Result<Effect, BefungeError>) {
    let p = step(m.row, m.col, m.dir);
    let moved = Machine { row: p.0, col: p.1, ..m };
    instruction(moved, m.grid[p.0][p.1])
}

/// Up to `fuel` ticks from `m`, stopping after the first one that does not
/// end in `Continue`: the machine reached and the last tick's result
/// (`Continue` where the fuel ran out first, or was zero).
pub open spec fn run_spec(m: Machine, fuel: nat) -> (Machine, Result<Effect, BefungeError>)
    decreases fuel,
{
    if fuel == 0 {
        (m, Ok(Effect::Continue))
    } else {
        let (m1, r) = tick_spec(m);
        if r == Ok::<Effect, BefungeError>(Effect::Continue) {
            run_spec(m1, (fuel - 1) as nat)
        } else {
            (m1, r)
        }
    }
}

/// The byte `i` cells ahead of the counter of `m`, in its direction.
pub open spec fn cell_ahead(m: Machine, i: nat) -> u8 {
    let p = steps(m.row, m.col, m.dir, i);
    m.grid[p.0][p.1]
}

/// The code points of bytes, as stack values.
pub open spec fn codes(t: Seq<u8>) -> Seq<i32> {
    t.map_values(|c: u8| c as i32)
}

/// The machine partway through a string literal whose bytes are `text`
/// and whose opening quote is the next cell ahead of `m`: `j` ticks on, the
/// quote and the first `j - 1` bytes have been read.
pub open spec fn in_literal(m: Machine, text: Seq<u8>, j: nat) -> Machine {
    let p = steps(m.row, m.col, m.dir, j);
    Machine {
        stack: if j == 0 { m.stack } else { m.stack + codes(text.take(j - 1)) },
        row: p.0,
        col: p.1,
        string_mode: j > 0,
        ..m
    }
}

proof fn lemma_literal_from(m: Machine, text: Seq<u8>, j: nat)
    requires
        !m.string_mode,
        cell_ahead(m, 1) == QUOTE,
        forall|i: int| 0 <= i < text.len() ==> cell_ahead(m, (i + 2) as nat) == #[trigger] text[i]
            && text[i] != QUOTE,
        cell_ahead(m, text.len() + 2) == QUOTE,
        j <= text.len() + 1,
    ensures
        run_spec(in_literal(m, text, j), (text.len() + 2 - j) as nat) == (
        Machine {
            stack: m.stack + codes(text),
            row: steps(m.row, m.col, m.dir, text.len() + 2).0,
            col: steps(m.row, m.col, m.dir, text.len() + 2).1,
            ..m
        }, Ok::<Effect, BefungeError>(Effect::Continue)),
    decreases text.len() + 1 - j,
{
    let k = text.len();
    let mj = in_literal(m, text, j);
    let next = in_literal(m, text, j + 1);
    if j == k + 1 {
        assert(text.take(k as int) =~= text);
        let last = Machine {
            stack: m.stack + codes(text),
            row: steps(m.row, m.col, m.dir, k + 2).0,
            col: steps(m.row, m.col, m.dir, k + 2).1,
            ..m
        };
        assert(tick_spec(mj) == (last, Ok::<Effect, BefungeError>(Effect::Continue)));
        assert(run_spec(last, 0) == (last, Ok::<Effect, BefungeError>(Effect::Continue)));
    } else {
        lemma_literal_from(m, text, j + 1);
        if j == 0 {
            assert(text.take(0) =~= Seq::<u8>::empty());
            assert(m.stack + codes(text.take(0)) =~= m.stack);
        } else {
            let c = text[j - 1];
            assert(cell_ahead(m, j + 1) == c);
            assert(m.stack + codes(text.take(j as int)) =~= (m.stack + codes(text.take(j - 1))).push(c as i32));
        }
        assert(tick_spec(mj) == (next, Ok::<Effect, BefungeError>(Effect::Continue)));
    }
}

/// String mode: when the counter is about to enter an opening quote that is
/// followed by the bytes `text`, none of them a quote, and then by a closing
/// quote, the next `text.len() + 2` ticks all continue, push the code
/// points of `text` in the order they were met and neither quote, and leave
/// string mode off again with the counter on the closing quote.
pub proof fn lemma_string_literal(m: Machine, text: Seq<u8>)
    requires
        !m.string_mode,
        cell_ahead(m, 1) == QUOTE,
        forall|i: int| 0 <= i < text.len() ==> cell_ahead(m, (i + 2) as nat) == #[trigger] text[i]
            && text[i] != QUOTE,
        cell_ahead(m, text.len() + 2) == QUOTE,
    ensures
        run_spec(m, text.len() + 2) == (
        Machine {
            stack: m.stack + codes(text),
            row: steps(m.row, m.col, m.dir, text.len() + 2).0,
            col: steps(m.row, m.col, m.dir, text.len() + 2).1,
            ..m
        }, Ok::<Effect, BefungeError>(Effect::Continue)),
{
    lemma_literal_from(m, text, 0);
    assert(in_literal(m, text, 0) == m);
}

/// How many operands instruction `c` takes off the stack.
pub fn operand_count(c: u8) -> (r: usize)
    ensures
        r == operands(c),
{
    if c == IF_HORIZONTAL || c == IF_VERTICAL || c == OUTPUT_INT || c == OUTPUT_CHAR || c == NOT
        || c == DUP || c == DISCARD {
        1
    } else if c == PLUS || c == MINUS || c == TIMES || c == DIVIDE || c == MODULO || c == GREATER
        || c == SWAP || c == GET {
        2
    } else if c == PUT {
        3
    } else {
        0
    }
}

/// Applies arithmetic instruction `c` to `x` (pushed first) and `y` (pushed
/// last).
pub fn apply_arith(c: u8, x: i32, y: i32) -> (r: Result<i32, BefungeError>)
    requires
        is_arith(c),
    ensures
        r == arith(c, x, y),
{
    if c == PLUS {
        Ok(x.wrapping_add(y))
    } else if c == MINUS {
        Ok(x.wrapping_sub(y))
    } else if c == TIMES {
        Ok(x.wrapping_mul(y))
    } else if c == DIVIDE || c == MODULO {
        if y == 0 {
            Err(BefungeError::DivisionByZero)
        } else if c == DIVIDE {
            Ok(match x.checked_div(y) { Some(q) => q, None => i32::MIN })
        } else {
            Ok(match x.checked_rem(y) { Some(q) => q, None => 0i32 })
        }
    } else {
        Ok(if x > y { 1i32 } else { 0i32 })
    }
}

/// An interpreter session: the grid, the operand stack, the program counter
/// and whether string mode is on.
pub struct Befunge {
    memory: Memory,
    stack: Stack,
    pc: ProgramCounter,
    string_mode: bool,
}

impl Befunge {
    /// The session as a mathematical value.
    pub closed spec fn model(&self) -> Machine {
        Machine {
            grid: self.memory@,
            stack: self.stack@,
            row: self.pc.position().0,
            col: self.pc.position().1,
            dir: self.pc.direction(),
            string_mode: self.string_mode,
        }
    }

    /// The grid has its shape and the counter lies on it.
    pub closed spec fn wf(&self) -> bool {
        self.memory.wf() && self.pc.wf()
    }

    /// A session that runs the program given as lines of bytes, with an
    /// empty stack and the counter about to enter `(0, 0)` moving right.
    pub fn from_lines(data: Vec<Vec<u8>>) -> (r: Befunge)
        ensures
            r.wf(),
            r.model() == initial(crate::memory::rows_view(data@)),
    {
        Befunge { memory: Memory::new(data), stack: Stack::new(), pc: ProgramCounter::new(), string_mode: false }
    }

    /// A session that runs the program text `text`, split into lines as
    /// `source_lines` does.
    pub fn from_source(text: &str) -> (r: Befunge)
        ensures
            r.wf(),
            r.model() == initial(lines_of(text@)),
    {
        Befunge::from_lines(source_lines(text))
    }

    /// A session loaded with a program that writes `Hello World!`.
    pub fn hello_world_sample() -> (r: Befunge)
        ensures
            r.wf(),
            r.model() == initial(lines_of(HELLO_WORLD@)),
    {
        Befunge::from_source(HELLO_WORLD)
    }

    /// A session loaded with a program that writes the factorial of 5.
    pub fn factorial_sample() -> (r: Befunge)
        ensures
            r.wf(),
            r.model() == initial(lines_of(FACTORIAL@)),
    {
        Befunge::from_source(FACTORIAL)
    }

    /// Pushes an integer that was read for an `&` instruction.
    pub fn supply_int(&mut self, val: i32)
        ensures
            final(self).wf() == old(self).wf(),
            final(self).model() == with_stack(old(self).model(), old(self).model().stack.push(val)),
    {
        self.stack.push(val);
    }

    /// Pushes the code point of a character that was read for a `~`
    /// instruction.
    pub fn supply_char(&mut self, c: char)
        ensures
            final(self).wf() == old(self).wf(),
            final(self).model() == with_stack(old(self).model(), old(self).model().stack.push(c as i32)),
    {
        self.stack.push(c as u32 as i32);
    }

    /// Turns the counter as a `?` instruction asks, by a number drawn at
    /// random: its remainder by four picks up, down, right or left.
    pub fn choose_direction(&mut self, draw: u32)
        ensures
            final(self).wf() == old(self).wf(),
            final(self).model() == with_dir(old(self).model(), direction_of(draw)),
    {
        let d = if draw % 4 == 0 {
            Direction::Up
        } else if draw % 4 == 1 {
            Direction::Down
        } else if draw % 4 == 2 {
            Direction::Right
        } else {
            Direction::Left
        };
        self.pc.set_direction(d);
    }

    /// The operand stack.
    pub fn stack(&self) -> (r: &Stack)
        ensures
            r@ == self.model().stack,
    {
        &self.stack
    }

    /// The grid.
    pub fn memory(&self) -> (r: &Memory)
        ensures
            r@ == self.model().grid,
            self.wf() ==> r.wf(),
    {
        &self.memory
    }

    /// The program counter.
    pub fn pc(&self) -> (r: &ProgramCounter)
        ensures
            r.position() == (self.model().row, self.model().col),
            r.direction() == self.model().dir,
            self.wf() ==> r.wf(),
    {
        &self.pc
    }

    /// Whether string mode is on.
    pub fn in_string_mode(&self) -> (r: bool)
        ensures
            r == self.model().string_mode,
    {
        self.string_mode
    }

    /// Executes byte `c` on the cell the counter stands on.
    fn execute(&mut self, c: u8) -> (r: Result<Effect, BefungeError>)
        requires
            old(self).wf(),
        ensures
            final(self).wf(),
            (final(self).model(), r) == instruction(old(self).model(), c),
    {
        if self.string_mode {
            if c == QUOTE {
                self.string_mode = false;
            } else {
                self.stack.push(c as i32);
            }
            return Ok(Effect::Continue);
        }
        let n = self.stack.len();
        if n < operand_count(c) {
            return Err(BefungeError::StackUnderflow(c));
        }
        if c == GO_UP {
            self.pc.set_direction(Direction::Up);
            Ok(Effect::Continue)
        } else if c == GO_DOWN {
            self.pc.set_direction(Direction::Down);
            Ok(Effect::Continue)
        } else if c == GO_RIGHT {
            self.pc.set_direction(Direction::Right);
            Ok(Effect::Continue)
        } else if c == GO_LEFT {
            self.pc.set_direction(Direction::Left);
            Ok(Effect::Continue)
        } else if c == IF_HORIZONTAL || c == IF_VERTICAL {
            let v = self.top_value();
            let d = if c == IF_HORIZONTAL {
                if v == 0 { Direction::Right } else { Direction::Left }
            } else {
                if v == 0 { Direction::Down } else { Direction::Up }
            };
            self.pc.set_direction(d);
            Ok(Effect::Continue)
        } else if c == GO_RANDOM {
            Ok(Effect::RandomDirection)
        } else if c == NOP {
            Ok(Effect::Continue)
        } else if c == BRIDGE {
            self.pc.next();
            Ok(Effect::Continue)
        } else if c == HALT {
            Ok(Effect::Halt)
        } else if DIGIT_ZERO <= c && c <= DIGIT_NINE {
            self.stack.push((c - DIGIT_ZERO) as i32);
            Ok(Effect::Continue)
        } else if c == QUOTE {
            self.string_mode = true;
            Ok(Effect::Continue)
        } else if c == INPUT_INT {
            Ok(Effect::ReadInt)
        } else if c == INPUT_CHAR {
            Ok(Effect::ReadChar)
        } else if c == OUTPUT_INT {
            let v = self.top_value();
            Ok(Effect::WriteInt(v))
        } else if c == OUTPUT_CHAR {
            let v = self.top_value();
            Ok(Effect::WriteChar(#[verifier::truncate] (v as u8)))
        } else {
            self.execute_data(c)
        }
    }

    /// Takes the top value off a stack known not to be empty.
    fn top_value(&mut self) -> (r: i32)
        requires
            old(self).stack@.len() > 0,
        ensures
            r == old(self).stack@.last(),
            final(self).stack@ == old(self).stack@.drop_last(),
            final(self).memory == old(self).memory,
            final(self).pc == old(self).pc,
            final(self).string_mode == old(self).string_mode,
    {
        match self.stack.pop() {
            Ok(v) => v,
            Err(_) => 0,
        }
    }

    /// Executes one of the instructions that work on the stack's values and
    /// on the grid, outside string mode and with enough operands.
    fn execute_data(&mut self, c: u8) -> (r: Result<Effect, BefungeError>)
        requires
            old(self).wf(),
            !old(self).string_mode,
            old(self).stack@.len() >= operands(c),
            !(c == GO_UP || c == GO_DOWN || c == GO_RIGHT || c == GO_LEFT || c == IF_HORIZONTAL
                || c == IF_VERTICAL || c == GO_RANDOM || c == NOP || c == BRIDGE || c == HALT
                || (DIGIT_ZERO <= c && c <= DIGIT_NINE) || c == QUOTE || c == INPUT_INT
                || c == INPUT_CHAR || c == OUTPUT_INT || c == OUTPUT_CHAR),
        ensures
            final(self).wf(),
            (final(self).model(), r) == instruction(old(self).model(), c),
    {
        let ghost m = self.model();
        let n = self.stack.len();
        if c == PLUS || c == MINUS || c == TIMES || c == DIVIDE || c == MODULO || c == GREATER {
            let y = self.stack.peek(0);
            let x = self.stack.peek(1);
            match apply_arith(c, x, y) {
                Ok(v) => {
                    let _ = self.top_value();
                    let _ = self.top_value();
                    self.stack.push(v);
                    assert(self.stack@ =~= m.stack.subrange(0, n - 2).push(v));
                    Ok(Effect::Continue)
                },
                Err(e) => Err(e),
            }
        } else if c == NOT {
            let v = self.top_value();
            self.stack.push(if v == 0 { 1i32 } else { 0i32 });
            Ok(Effect::Continue)
        } else if c == DUP {
            let v = self.stack.peek(0);
            self.stack.push(v);
            Ok(Effect::Continue)
        } else if c == SWAP {
            let y = self.top_value();
            let x = self.top_value();
            self.stack.push(y);
            self.stack.push(x);
            assert(self.stack@ =~= m.stack.subrange(0, n - 2).push(y).push(x));
            Ok(Effect::Continue)
        } else if c == DISCARD {
            let _ = self.top_value();
            Ok(Effect::Continue)
        } else if c == GET || c == PUT {
            let row = self.stack.peek(0);
            let col = self.stack.peek(1);
            if row < 0 || row >= MEM_HEIGHT as i32 || col < 0 || col >= MEM_WIDTH as i32 {
                return Err(BefungeError::OutOfBounds);
            }
            let _ = self.top_value();
            let _ = self.top_value();
            if c == GET {
                let b = self.memory.get(row as usize, col as usize);
                self.stack.push(b as i32);
                assert(self.stack@ =~= m.stack.subrange(0, n - 2).push(b as i32));
            } else {
                let v = self.top_value();
                self.memory.put(#[verifier::truncate] (v as u8), row as usize, col as usize);
                assert(self.stack@ =~= m.stack.subrange(0, n - 3));
            }
            Ok(Effect::Continue)
        } else {
            Err(BefungeError::UnknownInstruction(c))
        }
    }

    /// One tick: moves the counter one cell and executes the byte found
    /// there.
    pub fn tick(&mut self) -> (r: Result<Effect, BefungeError>)
        requires
            old(self).wf(),
        ensures
            final(self).wf(),
            (final(self).model(), r) == tick_spec(old(self).model()),
    {
        self.pc.next();
        let (row, col) = self.pc.pos();
        let c = self.memory.get(row, col);
        self.execute(c)
    }

    /// Ticks until a tick asks for something other than `Continue` (a halt,
    /// output, input or a random draw) or fails, or until `max_ticks` ticks
    /// have run.
    pub fn run_until_effect(&mut self, max_ticks: u64) -> (r: Result<Effect, BefungeError>)
        requires
            old(self).wf(),
        ensures
            final(self).wf(),
            (final(self).model(), r) == run_spec(old(self).model(), max_ticks as nat),
    {
        let mut left: u64 = max_ticks;
        while left > 0
            invariant
                self.wf(),
                run_spec(self.model(), left as nat) == run_spec(old(self).model(), max_ticks as nat),
            decreases left,
        {
            let ghost before = self.model();
            let r = self.tick();
            proof {
                assert(run_spec(before, left as nat) == (if r == Ok::<Effect, BefungeError>(Effect::Continue) {
                    run_spec(self.model(), (left - 1) as nat)
                } else {
                    (self.model(), r)
                }));
            }
            match r {
                Ok(Effect::Continue) => {},
                _ => {
                    return r;
                },
            }
            left = left - 1;
        }
        Ok(Effect::Continue)
    }
}

} // verus!
