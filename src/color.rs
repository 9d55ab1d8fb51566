//! RGB colours and the 256-colour terminal palette.

use vstd::prelude::*;

verus! {

/// An RGB colour, eight bits per channel.
#[derive(Clone, Copy, Debug, PartialEq, Eq, Structural)]
pub struct Color {
    pub r: u8,
    pub g: u8,
    pub b: u8,
}

/// The colour with the given channels.
pub open spec fn rgb(r: u8, g: u8, b: u8) -> Color {
    Color { r, g, b }
}

/// Foreground used when no colour attribute is in force.
pub open spec fn default_fg_spec() -> Color {
    rgb(204, 204, 204)
}

/// Background used when no colour attribute is in force.
pub open spec fn default_bg_spec() -> Color {
    rgb(0, 0, 0)
}

/// The sixteen base colours: 0..=7 standard, 8..=15 bright.
pub open spec fn ansi16(i: nat) -> Color {
    if i == 0 { rgb(0, 0, 0) }
    else if i == 1 { rgb(205, 49, 49) }
    else if i == 2 { rgb(13, 188, 121) }
    else if i == 3 { rgb(229, 229, 16) }
    else if i == 4 { rgb(36, 114, 200) }
    else if i == 5 { rgb(188, 63, 188) }
    else if i == 6 { rgb(17, 168, 205) }
    else if i == 7 { rgb(229, 229, 229) }
    else if i == 8 { rgb(102, 102, 102) }
    else if i == 9 { rgb(241, 76, 76) }
    else if i == 10 { rgb(35, 209, 139) }
    else if i == 11 { rgb(245, 245, 67) }
    else if i == 12 { rgb(59, 142, 234) }
    else if i == 13 { rgb(214, 112, 214) }
    else if i == 14 { rgb(41, 184, 219) }
    else { rgb(255, 255, 255) }
}

/// Intensity of one step (0..=5) of the colour cube.
pub open spec fn cube_level(v: int) -> int {
    if v == 0 { 0 } else { 55 + 40 * v }
}

/// The 256-colour palette: base colours, a 6x6x6 cube, then a grey ramp.
pub open spec fn color256(n: u8) -> Color {
    if n < 16 {
        ansi16(n as nat)
    } else if n < 232 {
        let m = n - 16;
        Color {
            r: cube_level((m / 36) % 6) as u8,
            g: cube_level((m / 6) % 6) as u8,
            b: cube_level(m % 6) as u8,
        }
    } else {
        let v = 8 + 10 * (n - 232);
        rgb(v as u8, v as u8, v as u8)
    }
}

impl Color {
    pub fn new(r: u8, g: u8, b: u8) -> (c: Color)
        ensures
            c == rgb(r, g, b),
    {
        Color { r, g, b }
    }

    pub fn default_fg() -> (c: Color)
        ensures
            c == default_fg_spec(),
    {
        Color::new(204, 204, 204)
    }

    pub fn default_bg() -> (c: Color)
        ensures
            c == default_bg_spec(),
    {
        Color::new(0, 0, 0)
    }
}

/// One of the sixteen base colours; `i` must be below 16.
pub fn ansi_color(i: u8) -> (c: Color)
    requires
        i < 16,
    ensures
        c == ansi16(i as nat),
{
    match i {
        0 => Color::new(0, 0, 0),
        1 => Color::new(205, 49, 49),
        2 => Color::new(13, 188, 121),
        3 => Color::new(229, 229, 16),
        4 => Color::new(36, 114, 200),
        5 => Color::new(188, 63, 188),
        6 => Color::new(17, 168, 205),
        7 => Color::new(229, 229, 229),
        8 => Color::new(102, 102, 102),
        9 => Color::new(241, 76, 76),
        10 => Color::new(35, 209, 139),
        11 => Color::new(245, 245, 67),
        12 => Color::new(59, 142, 234),
        13 => Color::new(214, 112, 214),
        14 => Color::new(41, 184, 219),
        _ => Color::new(255, 255, 255),
    }
}

fn cube_channel(v: u8) -> (c: u8)
    requires
        v < 6,
    ensures
        c == cube_level(v as int),
{
    if v == 0 { 0 } else { 55 + v * 40 }
}

/// Resolves a 256-colour palette index to RGB.
pub fn color_from_256(n: u8) -> (c: Color)
    ensures
        c == color256(n),
{
    if n < 16 {
        ansi_color(n)
    } else if n < 232 {
        let m: u8 = n - 16;
        let r = cube_channel((m / 36) % 6);
        let g = cube_channel((m / 6) % 6);
        let b = cube_channel(m % 6);
        Color::new(r, g, b)
    } else {
        let v: u8 = 8 + (n - 232) * 10;
        Color::new(v, v, v)
    }
}

} // verus!
