use vstd::prelude::*;

verus! {

/// Number of columns of the grid.
pub const MEM_WIDTH: usize = 80;

/// Number of rows of the grid.
pub const MEM_HEIGHT: usize = 25;

/// The byte that fills every cell the program text does not reach.
pub const BLANK: u8 = 32;

/// The byte at `(row, col)` of a program given as lines of bytes: the line's
/// byte where the line reaches that far, blank elsewhere.
pub open spec fn source_cell(lines: Seq<Seq<u8>>, row: int, col: int) -> u8 {
    if 0 <= row < lines.len() && 0 <= col < lines[row].len() {
        lines[row][col]
    } else {
        BLANK
    }
}

/// The grid that a program given as lines of bytes loads into: each line's
/// bytes lead a row, truncated to the width, and everything else is blank.
pub open spec fn grid_of(lines: Seq<Seq<u8>>) -> Seq<Seq<u8>> {
    Seq::new(MEM_HEIGHT as nat, |row: int| Seq::new(MEM_WIDTH as nat, |col: int| source_cell(lines, row, col)))
}

/// Whether a sequence of rows has the shape of the grid.
pub open spec fn grid_shaped(g: Seq<Seq<u8>>) -> bool {
    &&& g.len() == MEM_HEIGHT
    &&& forall|row: int| 0 <= row < MEM_HEIGHT ==> #[trigger] g[row].len() == MEM_WIDTH
}

/// Loading pads with blanks: in a grid loaded from lines that are all
/// shorter than the width, each cell past the end of its line, and each cell
/// of a row beyond the last line, holds the blank byte, and every cell of the
/// grid can be read.
pub proof fn lemma_blank_padding(lines: Seq<Seq<u8>>, row: int, col: int)
    requires
        forall|i: int| 0 <= i < lines.len() ==> #[trigger] lines[i].len() < MEM_WIDTH,
        0 <= row < MEM_HEIGHT,
        0 <= col < MEM_WIDTH,
        row >= lines.len() || col >= lines[row].len(),
    ensures
        grid_shaped(grid_of(lines)),
        grid_of(lines)[row][col] == BLANK,
{
}

/// The contents of a vector of byte rows.
pub open spec fn rows_view(v: Seq<Vec<u8>>) -> Seq<Seq<u8>> {
    v.map_values(|l: Vec<u8>| l@)
}

/// The grid of instruction bytes, `MEM_HEIGHT` rows of `MEM_WIDTH` cells.
#[derive(Debug)]
pub struct Memory {
    mem: Vec<Vec<u8>>,
}

impl View for Memory {
    type V = Seq<Seq<u8>>;

    closed spec fn view(&self) -> Seq<Seq<u8>> {
        rows_view(self.mem@)
    }
}

impl Memory {
    /// The grid has its fixed shape.
    pub open spec fn wf(&self) -> bool {
        grid_shaped(self@)
    }

    /// Loads a program: line `i` of `data` fills the leading cells of row
    /// `i`. Lines longer than the width are cut, lines beyond the height are
    /// dropped, and all other cells are blank.
    pub fn new(data: Vec<Vec<u8>>) -> (r: Memory)
        ensures
            r.wf(),
            r@ == grid_of(rows_view(data@)),
    {
        let ghost lines = rows_view(data@);
        let mut mem: Vec<Vec<u8>> = Vec::new();
        let mut row: usize = 0;
        while row < MEM_HEIGHT
            invariant
                row <= MEM_HEIGHT,
                lines == rows_view(data@),
                mem.len() == row,
                forall|i: int| 0 <= i < row ==> #[trigger] mem@[i]@ == grid_of(lines)[i],
            decreases MEM_HEIGHT - row,
        {
            let mut line: Vec<u8> = Vec::new();
            let mut col: usize = 0;
            while col < MEM_WIDTH
                invariant
                    row < MEM_HEIGHT,
                    col <= MEM_WIDTH,
                    lines == rows_view(data@),
                    line.len() == col,
                    forall|j: int| 0 <= j < col ==> #[trigger] line@[j] == source_cell(lines, row as int, j),
                decreases MEM_WIDTH - col,
            {
                let b: u8 = if row < data.len() && col < data[row].len() {
                    data[row][col]
                } else {
                    BLANK
                };
                line.push(b);
                col += 1;
            }
            assert(line@ == grid_of(lines)[row as int]);
            mem.push(line);
            row += 1;
        }
        assert(rows_view(mem@) =~= grid_of(lines));
        Memory { mem }
    }

    /// The byte at `(row, col)`.
    pub fn get(&self, row: usize, col: usize) -> (r: u8)
        requires
            self.wf(),
            row < MEM_HEIGHT,
            col < MEM_WIDTH,
        ensures
            r == self@[row as int][col as int],
    {
        assert(self@[row as int] == self.mem@[row as int]@);
        self.mem[row][col]
    }

    /// Replaces the byte at `(row, col)` by `val`; every other cell is kept.
    pub fn put(&mut self, val: u8, row: usize, col: usize)
        requires
            old(self).wf(),
            row < MEM_HEIGHT,
            col < MEM_WIDTH,
        ensures
            final(self).wf(),
            final(self)@ == old(self)@.update(row as int, old(self)@[row as int].update(col as int, val)),
    {
        assert(self@[row as int] == self.mem@[row as int]@);
        let mut line = self.mem[row].clone();
        line.set(col, val);
        self.mem.set(row, line);
        assert(self@ =~= old(self)@.update(row as int, old(self)@[row as int].update(col as int, val)));
    }
}

} // verus!
