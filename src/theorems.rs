//! Facts about the state machine and the attribute resolver that hold for
//! every input.

use vstd::prelude::*;

use crate::color::{ansi16, default_bg_spec, default_fg_spec, rgb};
use crate::grid::{blank_row, is_matrix, Cell};
use crate::sgr::{
    all_digits, decimal, parse_u8, parsed, reset_attrs, sgr_apply, sgr_run, sgr_params, split_semis,
    unsigned_part, Attrs,
};
use crate::term::{cursor_ok, run, step, EscapeState, TermModel};

verus! {

proof fn lemma_one_number(d: Seq<u8>, v: u8)
    requires
        d.len() >= 1,
        d.len() <= 2,
        d[0] != 43,
        all_digits(d),
        decimal(d) == v,
        forall|i: int| 0 <= i < d.len() ==> #[trigger] d[i] != 59,
    ensures
        sgr_params(d) == seq![v],
{
    let e = Seq::<u8>::empty();
    assert(split_semis(e) == seq![e]);
    if d.len() == 1 {
        assert(d.drop_last() =~= e);
        assert(e.push(d.last()) =~= d);
        assert(seq![e].update(0, d) =~= seq![d]);
        assert(split_semis(d) =~= seq![d]);
    } else {
        let d1 = d.drop_last();
        assert(d1.drop_last() =~= e);
        assert(e.push(d1.last()) =~= d1);
        assert(seq![e].update(0, d1) =~= seq![d1]);
        assert(split_semis(d1) =~= seq![d1]);
        assert(d1.push(d.last()) =~= d);
        assert(seq![d1].update(0, d) =~= seq![d]);
        assert(split_semis(d) =~= seq![d]);
    }
    assert(unsigned_part(d) == d);
    assert(parse_u8(d) == Some(v));
    assert(seq![d].drop_last() =~= Seq::<Seq<u8>>::empty());
    assert(parsed(Seq::<Seq<u8>>::empty()) == Seq::<u8>::empty());
    assert(Seq::<u8>::empty().push(v) =~= seq![v]);
    assert(parsed(seq![d]) =~= seq![v]);
}

/// The parameter bytes "0" read as the single code 0, and "31" as 31.
proof fn lemma_small_params()
    ensures
        sgr_params(seq![48u8]) == seq![0u8],
        sgr_params(seq![51u8, 49u8]) == seq![31u8],
        sgr_params(Seq::empty()) == seq![0u8],
{
    let z = seq![48u8];
    assert(z.drop_last() =~= Seq::<u8>::empty());
    assert(decimal(Seq::<u8>::empty()) == 0);
    assert(decimal(z) == 0);
    lemma_one_number(z, 0);
    let t = seq![51u8, 49u8];
    assert(t.drop_last() =~= seq![51u8]);
    assert(seq![51u8].drop_last() =~= Seq::<u8>::empty());
    assert(decimal(Seq::<u8>::empty()) == 0);
    assert(decimal(seq![51u8]) == 3);
    assert(decimal(t) == 31);
    lemma_one_number(t, 31);
    assert(parsed(seq![Seq::<u8>::empty()]) =~= Seq::<u8>::empty()) by {
        assert(seq![Seq::<u8>::empty()].drop_last() =~= Seq::<Seq<u8>>::empty());
        assert(parse_u8(Seq::<u8>::empty()).is_none());
        assert(parsed(Seq::<Seq<u8>>::empty()) == Seq::<u8>::empty());
    }
    assert(split_semis(Seq::<u8>::empty()) == seq![Seq::<u8>::empty()]);
}

/// SGR "0", and an SGR sequence with no parameters, reset the colours to
/// the defaults and clear every style flag, whatever was in force; SGR
/// "31" sets the foreground to red (205, 49, 49).
pub proof fn sgr_reset_and_red(a: Attrs)
    ensures
        sgr_apply(a, seq![48u8]) == reset_attrs(),
        sgr_apply(a, Seq::empty()) == reset_attrs(),
        sgr_apply(a, seq![51u8, 49u8]).fg == rgb(205, 49, 49),
        reset_attrs().fg == default_fg_spec() && reset_attrs().bg == default_bg_spec(),
        !reset_attrs().bold && !reset_attrs().dim && !reset_attrs().italic && !reset_attrs().underline,
{
    lemma_small_params();
    let e = Seq::<u8>::empty();
    assert(seq![0u8].skip(1) =~= e);
    assert(seq![31u8].skip(1) =~= e);
    assert(sgr_run(reset_attrs(), e) == reset_attrs());
    assert(sgr_run(a, seq![0u8]) == reset_attrs());
    let red = Attrs { fg: ansi16(1), ..a };
    assert(sgr_run(red, e) == red);
    assert(sgr_run(a, seq![31u8]) == red);
    assert(ansi16(1) == rgb(205, 49, 49));
}

/// Applying SGR "0" twice leaves the same attributes as applying it once.
pub proof fn sgr_reset_idempotent(a: Attrs)
    ensures
        sgr_apply(sgr_apply(a, seq![48u8]), seq![48u8]) == sgr_apply(a, seq![48u8]),
{
    sgr_reset_and_red(a);
    sgr_reset_and_red(sgr_apply(a, seq![48u8]));
}

/// Printable bytes from the left edge of a line: after `k` of them, with
/// `k` short of the width, the cursor stands at column `k` of the same row.
proof fn lemma_line_prefix(t: TermModel, g: Seq<Seq<Cell>>, rows: nat, cols: nat, bs: Seq<u8>, k: nat)
    requires
        cursor_ok(t, rows, cols),
        t.col == 0,
        t.mode == EscapeState::Normal,
        k < cols,
        k <= bs.len(),
        forall|i: int| 0 <= i < bs.len() ==> 0x20 <= #[trigger] bs[i] <= 0x7e,
    ensures
        run(t, g, rows, cols, bs.take(k as int)).0 == (TermModel { col: k, ..t }),
    decreases k,
{
    if k == 0 {
        assert(bs.take(0) =~= Seq::<u8>::empty());
        assert(TermModel { col: 0, ..t } == t);
    } else {
        let km = (k - 1) as nat;
        lemma_line_prefix(t, g, rows, cols, bs, km);
        assert(bs.take(k as int).drop_last() =~= bs.take(km as int));
        assert(bs.take(k as int).last() == bs[km as int]);
    }
}

/// A full line of printable ASCII written from the left edge leaves the
/// cursor at column 0 of the next row, or of the last row after a scroll.
pub proof fn full_line_wraps(t: TermModel, g: Seq<Seq<Cell>>, rows: nat, cols: nat, bs: Seq<u8>)
    requires
        is_matrix(g, rows, cols),
        cursor_ok(t, rows, cols),
        t.col == 0,
        t.mode == EscapeState::Normal,
        bs.len() == cols,
        forall|i: int| 0 <= i < bs.len() ==> 0x20 <= #[trigger] bs[i] <= 0x7e,
    ensures
        run(t, g, rows, cols, bs).0.col == 0,
        run(t, g, rows, cols, bs).0.row == (if t.row + 1 < rows { t.row + 1 } else { (rows - 1) as nat }),
        run(t, g, rows, cols, bs).0.mode == EscapeState::Normal,
{
    let km = (cols - 1) as nat;
    lemma_line_prefix(t, g, rows, cols, bs, km);
    assert(bs.drop_last() =~= bs.take(km as int));
}

/// A line feed on the bottom row scrolls: each row moves up one, the
/// bottom row becomes blank, and the cursor stays on the bottom row.
pub proof fn newline_on_last_row_scrolls(t: TermModel, g: Seq<Seq<Cell>>, rows: nat, cols: nat)
    requires
        is_matrix(g, rows, cols),
        cursor_ok(t, rows, cols),
        t.row == rows - 1,
        t.mode == EscapeState::Normal,
    ensures
        step(t, g, rows, cols, 0x0a).0 == t,
        step(t, g, rows, cols, 0x0a).1.len() == rows,
        forall|r: int| 0 <= r < rows - 1 ==> #[trigger] step(t, g, rows, cols, 0x0a).1[r] == g[r + 1],
        step(t, g, rows, cols, 0x0a).1[rows - 1] == blank_row(cols),
{
}

} // verus!
