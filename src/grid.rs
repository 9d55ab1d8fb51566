//! Styled cells and the fixed-size grid that holds them.

use vstd::prelude::*;

use crate::color::{default_bg_spec, default_fg_spec, Color};

verus! {

/// Text style flags of one cell.
#[derive(Clone, Copy, Debug, PartialEq, Eq, Structural)]
pub struct Style {
    pub bold: bool,
    pub dim: bool,
    pub italic: bool,
    pub underline: bool,
    pub strikethrough: bool,
    pub inverse: bool,
}

/// One grid position: a character with its colours and style.
#[derive(Clone, Copy, Debug, PartialEq, Eq, Structural)]
pub struct Cell {
    pub c: char,
    pub fg: Color,
    pub bg: Color,
    pub style: Style,
}

pub open spec fn plain_style() -> Style {
    Style {
        bold: false,
        dim: false,
        italic: false,
        underline: false,
        strikethrough: false,
        inverse: false,
    }
}

/// A space in the default colours with no style.
pub open spec fn blank_cell() -> Cell {
    Cell { c: ' ', fg: default_fg_spec(), bg: default_bg_spec(), style: plain_style() }
}

/// A row of `cols` blank cells.
pub open spec fn blank_row(cols: nat) -> Seq<Cell> {
    Seq::new(cols, |i: int| blank_cell())
}

/// True when `cells` is a `rows` by `cols` matrix.
pub open spec fn is_matrix(cells: Seq<Seq<Cell>>, rows: nat, cols: nat) -> bool {
    &&& cells.len() == rows
    &&& forall|r: int| 0 <= r < rows ==> (#[trigger] cells[r]).len() == cols
}

/// The matrix with the cell at `(row, col)` replaced, when that position exists.
pub open spec fn set_cell(cells: Seq<Seq<Cell>>, row: int, col: int, cell: Cell) -> Seq<Seq<Cell>> {
    if 0 <= row < cells.len() && 0 <= col < cells[row].len() {
        cells.update(row, cells[row].update(col, cell))
    } else {
        cells
    }
}

/// The matrix moved up one row, with a blank row of `cols` cells at the bottom.
pub open spec fn scrolled(cells: Seq<Seq<Cell>>, cols: nat) -> Seq<Seq<Cell>> {
    cells.skip(1).push(blank_row(cols))
}

impl Style {
    pub fn plain() -> (s: Style)
        ensures
            s == plain_style(),
    {
        Style {
            bold: false,
            dim: false,
            italic: false,
            underline: false,
            strikethrough: false,
            inverse: false,
        }
    }
}

impl Cell {
    /// The blank cell.
    pub fn blank() -> (c: Cell)
        ensures
            c == blank_cell(),
    {
        Cell { c: ' ', fg: Color::default_fg(), bg: Color::default_bg(), style: Style::plain() }
    }
}

impl Default for Cell {
    fn default() -> (c: Cell)
        ensures
            c == blank_cell(),
    {
        Cell::blank()
    }
}

/// A row-major matrix of cells whose dimensions never change.
pub struct Grid {
    rows: usize,
    cols: usize,
    cells: Vec<Vec<Cell>>,
}

impl View for Grid {
    type V = Seq<Seq<Cell>>;

    closed spec fn view(&self) -> Seq<Seq<Cell>> {
        Seq::new(self.cells@.len(), |r: int| self.cells@[r]@)
    }
}

impl Grid {
    pub closed spec fn rows_spec(&self) -> nat {
        self.rows as nat
    }

    pub closed spec fn cols_spec(&self) -> nat {
        self.cols as nat
    }

    /// The cells form a `rows` by `cols` matrix.
    pub closed spec fn wf(&self) -> bool {
        &&& self.cells@.len() == self.rows
        &&& forall|r: int| 0 <= r < self.rows ==> (#[trigger] self.cells@[r])@.len() == self.cols
    }

    /// A well-formed grid's view is a `rows` by `cols` matrix.
    pub proof fn lemma_matrix(&self)
        requires
            self.wf(),
        ensures
            is_matrix(self@, self.rows_spec(), self.cols_spec()),
    {
        assert forall|r: int| 0 <= r < self.rows_spec() implies (#[trigger] self@[r]).len()
            == self.cols_spec() by {
            assert(self.cells@[r]@.len() == self.cols);
        }
    }

    /// A grid of `rows` by `cols` blank cells.
    pub fn new(rows: usize, cols: usize) -> (g: Grid)
        ensures
            g.wf(),
            g.rows_spec() == rows,
            g.cols_spec() == cols,
            g@ == Seq::new(rows as nat, |r: int| blank_row(cols as nat)),
    {
        let mut cells: Vec<Vec<Cell>> = Vec::new();
        let mut r: usize = 0;
        while r < rows
            invariant
                r <= rows,
                cells@.len() == r,
                forall|k: int| 0 <= k < r ==> (#[trigger] cells@[k])@ == blank_row(cols as nat),
            decreases rows - r,
        {
            let mut line: Vec<Cell> = Vec::new();
            let mut c: usize = 0;
            while c < cols
                invariant
                    c <= cols,
                    line@ == Seq::new(c as nat, |i: int| blank_cell()),
                decreases cols - c,
            {
                line.push(Cell::blank());
                c = c + 1;
                assert(line@ =~= Seq::new(c as nat, |i: int| blank_cell()));
            }
            assert(line@ =~= blank_row(cols as nat));
            cells.push(line);
            r = r + 1;
        }
        let g = Grid { rows, cols, cells };
        assert(g@ =~= Seq::new(rows as nat, |k: int| blank_row(cols as nat)));
        g
    }

    pub fn rows(&self) -> (n: usize)
        ensures
            n == self.rows_spec(),
    {
        self.rows
    }

    pub fn cols(&self) -> (n: usize)
        ensures
            n == self.cols_spec(),
    {
        self.cols
    }

    /// The cell at `(row, col)`, or `None` outside the grid.
    pub fn get(&self, row: usize, col: usize) -> (c: Option<&Cell>)
        requires
            self.wf(),
        ensures
            row < self.rows_spec() && col < self.cols_spec() ==> c == Some(&self@[row as int][col as int]),
            !(row < self.rows_spec() && col < self.cols_spec()) ==> c.is_none(),
    {
        if row < self.rows && col < self.cols {
            Some(&self.cells[row][col])
        } else {
            None
        }
    }

    /// Writes `cell` at `(row, col)`; does nothing outside the grid.
    pub fn set(&mut self, row: usize, col: usize, cell: Cell)
        requires
            old(self).wf(),
        ensures
            final(self).wf(),
            final(self).rows_spec() == old(self).rows_spec(),
            final(self).cols_spec() == old(self).cols_spec(),
            final(self)@ == set_cell(old(self)@, row as int, col as int, cell),
    {
        proof { old(self).lemma_matrix(); }
        if row < self.rows && col < self.cols {
            self.cells[row].set(col, cell);
        }
        assert(self@ =~= set_cell(old(self)@, row as int, col as int, cell));
    }

    /// The rows, top to bottom, each left to right.
    pub fn row_cells(&self) -> (v: &Vec<Vec<Cell>>)
        requires
            self.wf(),
        ensures
            v@.len() == self@.len(),
            forall|r: int| 0 <= r < v@.len() ==> (#[trigger] v@[r])@ == self@[r],
    {
        &self.cells
    }

    /// Moves every row up by one and blanks the bottom row.
    pub fn scroll_up(&mut self)
        requires
            old(self).wf(),
            old(self).rows_spec() > 0,
        ensures
            final(self).wf(),
            final(self).rows_spec() == old(self).rows_spec(),
            final(self).cols_spec() == old(self).cols_spec(),
            final(self)@ == scrolled(old(self)@, old(self).cols_spec()),
    {
        proof { old(self).lemma_matrix(); }
        let ghost g0 = self@;
        let rows = self.rows;
        let cols = self.cols;
        let mut row: usize = 1;
        while row < rows
            invariant
                self.wf(),
                self.rows == rows,
                self.cols == cols,
                rows == g0.len(),
                1 <= row <= rows,
                is_matrix(g0, rows as nat, cols as nat),
                forall|k: int| 0 <= k < row - 1 ==> #[trigger] self@[k] == g0[k + 1],
                forall|k: int| row - 1 <= k < rows ==> #[trigger] self@[k] == g0[k],
            decreases rows - row,
        {
            let mut col: usize = 0;
            while col < cols
                invariant
                    self.wf(),
                    self.rows == rows,
                    self.cols == cols,
                    rows == g0.len(),
                    1 <= row < rows,
                    col <= cols,
                    is_matrix(g0, rows as nat, cols as nat),
                    forall|k: int| 0 <= k < row - 1 ==> #[trigger] self@[k] == g0[k + 1],
                    forall|k: int| row <= k < rows ==> #[trigger] self@[k] == g0[k],
                    self@[row - 1].len() == cols,
                    forall|j: int| 0 <= j < col ==> #[trigger] self@[row - 1][j] == g0[row as int][j],
                    forall|j: int| col <= j < cols ==> #[trigger] self@[row - 1][j] == g0[row - 1][j],
                decreases cols - col,
            {
                let cell = *self.get(row, col).unwrap();
                self.set(row - 1, col, cell);
                col = col + 1;
            }
            assert(self@[row - 1] =~= g0[row as int]);
            row = row + 1;
        }
        let mut col: usize = 0;
        while col < cols
            invariant
                self.wf(),
                self.rows == rows,
                self.cols == cols,
                rows == g0.len(),
                rows >= 1,
                col <= cols,
                is_matrix(g0, rows as nat, cols as nat),
                forall|k: int| 0 <= k < rows - 1 ==> #[trigger] self@[k] == g0[k + 1],
                self@[rows - 1].len() == cols,
                forall|j: int| 0 <= j < col ==> #[trigger] self@[rows - 1][j] == blank_cell(),
            decreases cols - col,
        {
            self.set(rows - 1, col, Cell::blank());
            col = col + 1;
        }
        assert(self@[rows - 1] =~= blank_row(cols as nat));
        assert(self@ =~= scrolled(g0, cols as nat));
    }
}

} // verus!
