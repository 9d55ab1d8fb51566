//! The escape-sequence state machine that drives the cursor and the grid.

use vstd::prelude::*;

use crate::grid::{is_matrix, scrolled, set_cell, Cell, Grid};
use crate::sgr::{apply_sgr, sgr_apply, style_of, Attrs};

verus! {

/// Where the parser stands within an escape sequence.
#[derive(Clone, Copy, Debug, PartialEq, Eq, Structural)]
pub enum EscapeState {
    Normal,
    /// Just saw ESC.
    Escape,
    /// Inside a CSI sequence (ESC `[`).
    Csi,
}

/// Cursor, attributes and parser state of one terminal session.
pub struct TermState {
    pub cursor_row: usize,
    pub cursor_col: usize,
    pub attrs: Attrs,
    pub escape_state: EscapeState,
    pub escape_buf: Vec<u8>,
}

/// The mathematical state of a session.
pub struct TermModel {
    pub row: nat,
    pub col: nat,
    pub attrs: Attrs,
    pub mode: EscapeState,
    pub buf: Seq<u8>,
}

impl View for TermState {
    type V = TermModel;

    open spec fn view(&self) -> TermModel {
        TermModel {
            row: self.cursor_row as nat,
            col: self.cursor_col as nat,
            attrs: self.attrs,
            mode: self.escape_state,
            buf: self.escape_buf@,
        }
    }
}

pub open spec fn is_printable(b: u8) -> bool {
    (0x20 <= b <= 0x7e) || 0x80 <= b
}

pub open spec fn is_alpha(b: u8) -> bool {
    (65 <= b <= 90) || (97 <= b <= 122)
}

/// The cursor lies inside a `rows` by `cols` screen.
pub open spec fn cursor_ok(t: TermModel, rows: nat, cols: nat) -> bool {
    t.row < rows && t.col < cols
}

/// Moves the cursor down one row, scrolling when it leaves the bottom.
pub open spec fn line_down(t: TermModel, g: Seq<Seq<Cell>>, rows: nat, cols: nat) -> (TermModel, Seq<Seq<Cell>>) {
    if t.row + 1 >= rows {
        (TermModel { row: (rows - 1) as nat, ..t }, scrolled(g, cols))
    } else {
        (TermModel { row: t.row + 1, ..t }, g)
    }
}

/// The next tab stop after `col`, held inside the last column.
pub open spec fn tab_stop(col: nat, cols: nat) -> nat {
    let next = (col / 8 + 1) * 8;
    if next < cols { next } else { (cols - 1) as nat }
}

/// The cell that a printable byte writes under attributes `a`.
pub open spec fn cell_for(a: Attrs, b: u8) -> Cell {
    Cell { c: b as char, fg: a.fg, bg: a.bg, style: style_of(a) }
}

/// Writes a printable byte at the cursor and advances, wrapping at the
/// right edge.
pub open spec fn put_byte(t: TermModel, g: Seq<Seq<Cell>>, rows: nat, cols: nat, b: u8) -> (TermModel, Seq<Seq<Cell>>) {
    let g1 = set_cell(g, t.row as int, t.col as int, cell_for(t.attrs, b));
    if t.col + 1 >= cols {
        line_down(TermModel { col: 0, ..t }, g1, rows, cols)
    } else {
        (TermModel { col: t.col + 1, ..t }, g1)
    }
}

/// One byte of output applied to the state and the `rows` by `cols` grid.
pub open spec fn step(t: TermModel, g: Seq<Seq<Cell>>, rows: nat, cols: nat, b: u8) -> (TermModel, Seq<Seq<Cell>>) {
    match t.mode {
        EscapeState::Normal => {
            if b == 0x1b {
                (TermModel { mode: EscapeState::Escape, buf: Seq::empty(), ..t }, g)
            } else if b == 0x0a {
                line_down(t, g, rows, cols)
            } else if b == 0x0d {
                (TermModel { col: 0, ..t }, g)
            } else if b == 0x08 {
                (TermModel { col: if t.col > 0 { (t.col - 1) as nat } else { 0 }, ..t }, g)
            } else if b == 0x09 {
                (TermModel { col: tab_stop(t.col, cols), ..t }, g)
            } else if is_printable(b) {
                put_byte(t, g, rows, cols, b)
            } else {
                (t, g)
            }
        },
        EscapeState::Escape => {
            if b == 0x5b {
                (TermModel { mode: EscapeState::Csi, ..t }, g)
            } else {
                (TermModel { mode: EscapeState::Normal, ..t }, g)
            }
        },
        EscapeState::Csi => {
            if is_alpha(b) {
                let attrs = if b == 0x6d { sgr_apply(t.attrs, t.buf) } else { t.attrs };
                (TermModel { attrs, mode: EscapeState::Normal, buf: Seq::empty(), ..t }, g)
            } else {
                (TermModel { buf: t.buf.push(b), ..t }, g)
            }
        },
    }
}

/// A byte sequence applied in order.
pub open spec fn run(t: TermModel, g: Seq<Seq<Cell>>, rows: nat, cols: nat, bs: Seq<u8>) -> (TermModel, Seq<Seq<Cell>>)
    decreases bs.len(),
{
    if bs.len() == 0 {
        (t, g)
    } else {
        let (t1, g1) = run(t, g, rows, cols, bs.drop_last());
        step(t1, g1, rows, cols, bs.last())
    }
}

impl TermState {
    /// A session at the top-left corner with reset attributes.
    pub fn new() -> (s: TermState)
        ensures
            s@ == (TermModel {
                row: 0,
                col: 0,
                attrs: crate::sgr::reset_attrs(),
                mode: EscapeState::Normal,
                buf: Seq::empty(),
            }),
    {
        TermState {
            cursor_row: 0,
            cursor_col: 0,
            attrs: Attrs::reset(),
            escape_state: EscapeState::Normal,
            escape_buf: Vec::new(),
        }
    }
}

fn line_feed(state: &mut TermState, grid: &mut Grid)
    requires
        old(grid).wf(),
        cursor_ok(old(state)@, old(grid).rows_spec(), old(grid).cols_spec()),
    ensures
        final(grid).wf(),
        final(grid).rows_spec() == old(grid).rows_spec(),
        final(grid).cols_spec() == old(grid).cols_spec(),
        (final(state)@, final(grid)@) == line_down(old(state)@, old(grid)@, old(grid).rows_spec(), old(grid).cols_spec()),
{
    if state.cursor_row >= grid.rows() - 1 {
        grid.scroll_up();
        state.cursor_row = grid.rows() - 1;
    } else {
        state.cursor_row = state.cursor_row + 1;
    }
}

/// Consumes one byte of terminal output.
pub fn process_byte(state: &mut TermState, grid: &mut Grid, byte: u8)
    requires
        old(grid).wf(),
        cursor_ok(old(state)@, old(grid).rows_spec(), old(grid).cols_spec()),
    ensures
        final(grid).wf(),
        final(grid).rows_spec() == old(grid).rows_spec(),
        final(grid).cols_spec() == old(grid).cols_spec(),
        cursor_ok(final(state)@, final(grid).rows_spec(), final(grid).cols_spec()),
        (final(state)@, final(grid)@) == step(old(state)@, old(grid)@, old(grid).rows_spec(), old(grid).cols_spec(), byte),
{
    match state.escape_state {
        EscapeState::Normal => {
            if byte == 0x1b {
                state.escape_state = EscapeState::Escape;
                state.escape_buf.clear();
            } else if byte == 0x0a {
                line_feed(state, grid);
            } else if byte == 0x0d {
                state.cursor_col = 0;
            } else if byte == 0x08 {
                if state.cursor_col > 0 {
                    state.cursor_col = state.cursor_col - 1;
                }
            } else if byte == 0x09 {
                let last = grid.cols() - 1;
                let q = state.cursor_col / 8;
                proof {
                    assert(q < last / 8 <==> (q + 1) * 8 <= last) by (nonlinear_arith)
                        requires q == state.cursor_col / 8;
                    assert(q < last / 8 ==> (q + 1) * 8 <= last) by (nonlinear_arith);
                }
                state.cursor_col = if q < last / 8 { (q + 1) * 8 } else { last };
            } else if (0x20 <= byte && byte <= 0x7e) || 0x80 <= byte {
                let cell = Cell {
                    c: byte as char,
                    fg: state.attrs.fg,
                    bg: state.attrs.bg,
                    style: state.attrs.style(),
                };
                grid.set(state.cursor_row, state.cursor_col, cell);
                if state.cursor_col >= grid.cols() - 1 {
                    state.cursor_col = 0;
                    line_feed(state, grid);
                } else {
                    state.cursor_col = state.cursor_col + 1;
                }
            }
        },
        EscapeState::Escape => {
            if byte == 0x5b {
                state.escape_state = EscapeState::Csi;
            } else {
                state.escape_state = EscapeState::Normal;
            }
        },
        EscapeState::Csi => {
            if (65 <= byte && byte <= 90) || (97 <= byte && byte <= 122) {
                if byte == 0x6d {
                    apply_sgr(&mut state.attrs, &state.escape_buf);
                }
                state.escape_state = EscapeState::Normal;
                state.escape_buf.clear();
            } else {
                state.escape_buf.push(byte);
            }
        },
    }
    proof {
        assert(final(state)@.buf =~= step(old(state)@, old(grid)@, old(grid).rows_spec(), old(grid).cols_spec(), byte).0.buf);
    }
}

/// Consumes a chunk of terminal output byte by byte.
pub fn process_bytes(state: &mut TermState, grid: &mut Grid, bytes: &Vec<u8>)
    requires
        old(grid).wf(),
        cursor_ok(old(state)@, old(grid).rows_spec(), old(grid).cols_spec()),
    ensures
        final(grid).wf(),
        final(grid).rows_spec() == old(grid).rows_spec(),
        final(grid).cols_spec() == old(grid).cols_spec(),
        cursor_ok(final(state)@, final(grid).rows_spec(), final(grid).cols_spec()),
        (final(state)@, final(grid)@) == run(old(state)@, old(grid)@, old(grid).rows_spec(), old(grid).cols_spec(), bytes@),
{
    let ghost rows = grid.rows_spec();
    let ghost cols = grid.cols_spec();
    let mut i: usize = 0;
    while i < bytes.len()
        invariant
            i <= bytes@.len(),
            grid.wf(),
            grid.rows_spec() == rows,
            grid.cols_spec() == cols,
            rows == old(grid).rows_spec(),
            cols == old(grid).cols_spec(),
            cursor_ok(state@, rows, cols),
            (state@, grid@) == run(old(state)@, old(grid)@, rows, cols, bytes@.take(i as int)),
        decreases bytes@.len() - i,
    {
        assert(bytes@.take(i + 1).drop_last() =~= bytes@.take(i as int));
        process_byte(state, grid, bytes[i]);
        i = i + 1;
    }
    assert(bytes@.take(i as int) =~= bytes@);
}

} // verus!
