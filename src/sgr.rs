//! Text attributes and the SGR ("Select Graphic Rendition") resolver.

use vstd::prelude::*;

use crate::color::{
    ansi16, ansi_color, color256, color_from_256, default_bg_spec, default_fg_spec, Color,
};
use crate::grid::Style;

verus! {

/// The attributes applied to every cell written until they change.
#[derive(Clone, Copy, Debug, PartialEq, Eq, Structural)]
pub struct Attrs {
    pub fg: Color,
    pub bg: Color,
    pub bold: bool,
    pub dim: bool,
    pub italic: bool,
    pub underline: bool,
}

/// Default colours, no style flag set.
pub open spec fn reset_attrs() -> Attrs {
    Attrs {
        fg: default_fg_spec(),
        bg: default_bg_spec(),
        bold: false,
        dim: false,
        italic: false,
        underline: false,
    }
}

/// The cell style that `a` gives; strikethrough and inverse stay off.
pub open spec fn style_of(a: Attrs) -> Style {
    Style {
        bold: a.bold,
        dim: a.dim,
        italic: a.italic,
        underline: a.underline,
        strikethrough: false,
        inverse: false,
    }
}

/// The effect of one SGR code that takes no further parameters.
pub open spec fn sgr_code(a: Attrs, p: u8) -> Attrs {
    if p == 0 {
        reset_attrs()
    } else if p == 1 {
        Attrs { bold: true, ..a }
    } else if p == 2 {
        Attrs { dim: true, ..a }
    } else if p == 3 {
        Attrs { italic: true, ..a }
    } else if p == 4 {
        Attrs { underline: true, ..a }
    } else if p == 22 {
        Attrs { bold: false, dim: false, ..a }
    } else if p == 23 {
        Attrs { italic: false, ..a }
    } else if p == 24 {
        Attrs { underline: false, ..a }
    } else if 30 <= p <= 37 {
        Attrs { fg: ansi16((p - 30) as nat), ..a }
    } else if p == 39 {
        Attrs { fg: default_fg_spec(), ..a }
    } else if 40 <= p <= 47 {
        Attrs { bg: ansi16((p - 40) as nat), ..a }
    } else if p == 49 {
        Attrs { bg: default_bg_spec(), ..a }
    } else if 90 <= p <= 97 {
        Attrs { fg: ansi16((p - 90 + 8) as nat), ..a }
    } else if 100 <= p <= 107 {
        Attrs { bg: ansi16((p - 100 + 8) as nat), ..a }
    } else {
        a
    }
}

/// Applies a parameter list left to right; `38;5;N` and `48;5;N` take
/// three parameters, and a `38` or `48` without them is ignored.
pub open spec fn sgr_run(a: Attrs, p: Seq<u8>) -> Attrs
    decreases p.len(),
{
    if p.len() == 0 {
        a
    } else if p[0] == 38 && p.len() >= 3 && p[1] == 5 {
        sgr_run(Attrs { fg: color256(p[2]), ..a }, p.skip(3))
    } else if p[0] == 48 && p.len() >= 3 && p[1] == 5 {
        sgr_run(Attrs { bg: color256(p[2]), ..a }, p.skip(3))
    } else {
        sgr_run(sgr_code(a, p[0]), p.skip(1))
    }
}

pub open spec fn is_digit(b: u8) -> bool {
    48 <= b <= 57
}

/// Decimal value of a string of digits.
pub open spec fn decimal(s: Seq<u8>) -> nat
    decreases s.len(),
{
    if s.len() == 0 {
        0
    } else {
        decimal(s.drop_last()) * 10 + (s.last() - 48) as nat
    }
}

pub open spec fn all_digits(d: Seq<u8>) -> bool {
    forall|i: int| 0 <= i < d.len() ==> is_digit(#[trigger] d[i])
}

/// A segment without its leading `+`, if it has one.
pub open spec fn unsigned_part(s: Seq<u8>) -> Seq<u8> {
    if s.len() > 0 && s[0] == 43 { s.skip(1) } else { s }
}

/// A segment read as a `u8`: an optional `+`, then one or more digits
/// whose value fits in eight bits.
pub open spec fn parse_u8(s: Seq<u8>) -> Option<u8> {
    let d = unsigned_part(s);
    if d.len() > 0 && all_digits(d) && decimal(d) <= 255 {
        Some(decimal(d) as u8)
    } else {
        None
    }
}

/// The bytes split at each `;`.
pub open spec fn split_semis(b: Seq<u8>) -> Seq<Seq<u8>>
    decreases b.len(),
{
    if b.len() == 0 {
        seq![Seq::empty()]
    } else {
        let rest = split_semis(b.drop_last());
        if b.last() == 59 {
            rest.push(Seq::empty())
        } else {
            rest.update(rest.len() - 1, rest.last().push(b.last()))
        }
    }
}

/// The segments that read as numbers, in order; the others are dropped.
pub open spec fn parsed(segs: Seq<Seq<u8>>) -> Seq<u8>
    decreases segs.len(),
{
    if segs.len() == 0 {
        Seq::empty()
    } else {
        match parse_u8(segs.last()) {
            Some(v) => parsed(segs.drop_last()).push(v),
            None => parsed(segs.drop_last()),
        }
    }
}

/// The parameter list of SGR parameter bytes; with no number in it, a
/// single reset.
pub open spec fn sgr_params(b: Seq<u8>) -> Seq<u8> {
    let p = parsed(split_semis(b));
    if p.len() == 0 { seq![0u8] } else { p }
}

/// What the SGR sequence with parameter bytes `b` does to `a`.
pub open spec fn sgr_apply(a: Attrs, b: Seq<u8>) -> Attrs {
    sgr_run(a, sgr_params(b))
}

proof fn lemma_split_nonempty(b: Seq<u8>)
    ensures
        split_semis(b).len() >= 1,
    decreases b.len(),
{
    if b.len() > 0 {
        lemma_split_nonempty(b.drop_last());
    }
}

impl Attrs {
    /// The initial attributes.
    pub fn reset() -> (a: Attrs)
        ensures
            a == reset_attrs(),
    {
        Attrs {
            fg: Color::default_fg(),
            bg: Color::default_bg(),
            bold: false,
            dim: false,
            italic: false,
            underline: false,
        }
    }

    /// The cell style these attributes give.
    pub fn style(&self) -> (s: Style)
        ensures
            s == style_of(*self),
    {
        Style {
            bold: self.bold,
            dim: self.dim,
            italic: self.italic,
            underline: self.underline,
            strikethrough: false,
            inverse: false,
        }
    }
}

/// Reads `b[start..end]` as a `u8`, as `parse_u8` describes.
fn parse_segment(b: &Vec<u8>, start: usize, end: usize) -> (r: Option<u8>)
    requires
        start <= end <= b@.len(),
    ensures
        r == parse_u8(b@.subrange(start as int, end as int)),
{
    let ghost s = b@.subrange(start as int, end as int);
    let mut i = start;
    if i < end && b[i] == 43 {
        i = i + 1;
    }
    let ghost d = unsigned_part(s);
    assert(d =~= b@.subrange(i as int, end as int));
    if i == end {
        return None;
    }
    let first = i;
    let mut acc: u32 = 0;
    let mut big = false;
    while i < end
        invariant
            start <= first <= i <= end <= b@.len(),
            s == b@.subrange(start as int, end as int),
            d == unsigned_part(s),
            d =~= b@.subrange(first as int, end as int),
            forall|k: int| first <= k < i ==> is_digit(#[trigger] b@[k]),
            acc <= 255,
            !big ==> acc == decimal(b@.subrange(first as int, i as int)),
            big ==> decimal(b@.subrange(first as int, i as int)) > 255,
        decreases end - i,
    {
        let c = b[i];
        if c < 48 || c > 57 {
            assert(d[i - first] == b@[i as int]);
            assert(!is_digit(d[i - first]));
            assert(!all_digits(d));
            return None;
        }
        let ghost pre = b@.subrange(first as int, i as int);
        let ghost nxt = b@.subrange(first as int, i + 1);
        assert(nxt.drop_last() =~= pre);
        assert(decimal(nxt) == decimal(pre) * 10 + (c - 48) as nat);
        if !big {
            let v = acc * 10 + (c - 48) as u32;
            if v > 255 {
                big = true;
            } else {
                acc = v;
            }
        } else {
            assert(decimal(nxt) >= decimal(pre)) by (nonlinear_arith)
                requires decimal(nxt) == decimal(pre) * 10 + (c - 48) as nat;
        }
        i = i + 1;
    }
    assert(b@.subrange(first as int, end as int) =~= d);
    if big {
        None
    } else {
        Some(acc as u8)
    }
}

/// The SGR parameter list of the bytes `b`, as `sgr_params` describes.
pub fn parse_params(b: &Vec<u8>) -> (p: Vec<u8>)
    ensures
        p@ == sgr_params(b@),
{
    let mut out: Vec<u8> = Vec::new();
    let mut start: usize = 0;
    let mut i: usize = 0;
    while i < b.len()
        invariant
            start <= i <= b@.len(),
            split_semis(b@.take(i as int)).len() >= 1,
            split_semis(b@.take(i as int)).last() == b@.subrange(start as int, i as int),
            out@ == parsed(split_semis(b@.take(i as int)).drop_last()),
        decreases b@.len() - i,
    {
        let ghost pre = b@.take(i as int);
        let ghost nxt = b@.take(i + 1);
        assert(nxt.drop_last() =~= pre);
        proof { lemma_split_nonempty(pre); }
        if b[i] == 59 {
            let ghost segs = split_semis(nxt);
            assert(segs.drop_last() =~= split_semis(pre));
            match parse_segment(b, start, i) {
                Some(v) => out.push(v),
                None => {},
            }
            start = i + 1;
            assert(b@.subrange(start as int, i + 1) =~= Seq::<u8>::empty());
        } else {
            let ghost segs = split_semis(nxt);
            assert(segs.drop_last() =~= split_semis(pre).drop_last());
            assert(b@.subrange(start as int, i + 1) =~= b@.subrange(start as int, i as int).push(b@[i as int]));
        }
        i = i + 1;
    }
    proof { lemma_split_nonempty(b@); }
    assert(b@.take(b@.len() as int) =~= b@);
    match parse_segment(b, start, i) {
        Some(v) => out.push(v),
        None => {},
    }
    if out.len() == 0 {
        out.push(0);
    }
    out
}

/// Applies one code that takes no further parameters.
fn apply_code(a: &mut Attrs, p: u8)
    ensures
        *final(a) == sgr_code(*old(a), p),
{
    match p {
        0 => *a = Attrs::reset(),
        1 => a.bold = true,
        2 => a.dim = true,
        3 => a.italic = true,
        4 => a.underline = true,
        22 => {
            a.bold = false;
            a.dim = false;
        },
        23 => a.italic = false,
        24 => a.underline = false,
        30..=37 => a.fg = ansi_color(p - 30),
        39 => a.fg = Color::default_fg(),
        40..=47 => a.bg = ansi_color(p - 40),
        49 => a.bg = Color::default_bg(),
        90..=97 => a.fg = ansi_color(p - 90 + 8),
        100..=107 => a.bg = ansi_color(p - 100 + 8),
        _ => {},
    }
}

/// Applies a parameter list, as `sgr_run` describes.
pub fn apply_params(a: &mut Attrs, params: &Vec<u8>)
    ensures
        *final(a) == sgr_run(*old(a), params@),
{
    let mut i: usize = 0;
    assert(params@.skip(0) =~= params@);
    while i < params.len()
        invariant
            i <= params@.len(),
            sgr_run(*a, params@.skip(i as int)) == sgr_run(*old(a), params@),
        decreases params@.len() - i,
    {
        let ghost rest = params@.skip(i as int);
        let p = params[i];
        if (p == 38 || p == 48) && params.len() - i > 2 && params[i + 1] == 5 {
            assert(rest.skip(3) =~= params@.skip(i + 3));
            let c = color_from_256(params[i + 2]);
            if p == 38 {
                a.fg = c;
            } else {
                a.bg = c;
            }
            i = i + 3;
        } else {
            assert(rest.skip(1) =~= params@.skip(i + 1));
            apply_code(a, p);
            i = i + 1;
        }
    }
    assert(params@.skip(i as int) =~= Seq::<u8>::empty());
}

/// Applies the SGR sequence with parameter bytes `param_bytes` to `a`.
pub fn apply_sgr(a: &mut Attrs, param_bytes: &Vec<u8>)
    ensures
        *final(a) == sgr_apply(*old(a), param_bytes@),
{
    let params = parse_params(param_bytes);
    apply_params(a, &params);
}

} // verus!
