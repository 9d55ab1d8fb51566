//! Colour themes: a background and a foreground, with optional cursor and
//! selection colours.

use vstd::prelude::*;

use crate::color::{rgb, Color};

verus! {

/// Terminal colour theme.
#[derive(Clone, Copy, Debug, PartialEq, Eq, Structural)]
pub struct Theme {
    /// Background colour.
    pub background: Color,
    /// Foreground (text) colour.
    pub foreground: Color,
    /// Cursor colour; the foreground when unset.
    pub cursor: Option<Color>,
    /// Selection background colour.
    pub selection: Option<Color>,
}

/// The theme with the given background and foreground and nothing else set.
pub open spec fn theme_of(background: Color, foreground: Color) -> Theme {
    Theme { background, foreground, cursor: None, selection: None }
}

/// The theme whose background and foreground have the given channels.
pub open spec fn preset(br: u8, bg: u8, bb: u8, fr: u8, fg: u8, fb: u8) -> Theme {
    theme_of(rgb(br, bg, bb), rgb(fr, fg, fb))
}

/// `explicit` when given, else `fallback`.
pub open spec fn or_else(explicit: Option<Color>, fallback: Color) -> Color {
    match explicit {
        Some(c) => c,
        None => fallback,
    }
}

impl Theme {
    /// A custom theme.
    pub fn new(background: Color, foreground: Color) -> (t: Theme)
        ensures
            t == theme_of(background, foreground),
    {
        Theme { background, foreground, cursor: None, selection: None }
    }

    /// Dark theme (the default): black background, light grey text.
    pub fn dark() -> (t: Theme)
        ensures
            t == preset(0, 0, 0, 204, 204, 204),
    {
        Theme::new(Color::new(0, 0, 0), Color::new(204, 204, 204))
    }

    /// Zinc theme: Tailwind zinc-900 on zinc-200.
    pub fn zinc() -> (t: Theme)
        ensures
            t == preset(24, 24, 27, 228, 228, 231),
    {
        Theme::new(Color::new(24, 24, 27), Color::new(228, 228, 231))
    }

    /// Slate theme: Tailwind slate-900 on slate-200.
    pub fn slate() -> (t: Theme)
        ensures
            t == preset(15, 23, 42, 226, 232, 240),
    {
        Theme::new(Color::new(15, 23, 42), Color::new(226, 232, 240))
    }

    /// Nord theme: polar night background.
    pub fn nord() -> (t: Theme)
        ensures
            t == preset(46, 52, 64, 216, 222, 233),
    {
        Theme::new(Color::new(46, 52, 64), Color::new(216, 222, 233))
    }

    /// Dracula theme.
    pub fn dracula() -> (t: Theme)
        ensures
            t == preset(40, 42, 54, 248, 248, 242),
    {
        Theme::new(Color::new(40, 42, 54), Color::new(248, 248, 242))
    }

    /// Monokai theme.
    pub fn monokai() -> (t: Theme)
        ensures
            t == preset(39, 40, 34, 248, 248, 242),
    {
        Theme::new(Color::new(39, 40, 34), Color::new(248, 248, 242))
    }

    /// Solarized Dark theme.
    pub fn solarized_dark() -> (t: Theme)
        ensures
            t == preset(0, 43, 54, 131, 148, 150),
    {
        Theme::new(Color::new(0, 43, 54), Color::new(131, 148, 150))
    }

    /// Solarized Light theme.
    pub fn solarized_light() -> (t: Theme)
        ensures
            t == preset(253, 246, 227, 101, 123, 131),
    {
        Theme::new(Color::new(253, 246, 227), Color::new(101, 123, 131))
    }

    /// Light theme: white background, dark text.
    pub fn light() -> (t: Theme)
        ensures
            t == preset(255, 255, 255, 30, 30, 30),
    {
        Theme::new(Color::new(255, 255, 255), Color::new(30, 30, 30))
    }

    /// GitHub Dark theme.
    pub fn github_dark() -> (t: Theme)
        ensures
            t == preset(13, 17, 23, 201, 209, 217),
    {
        Theme::new(Color::new(13, 17, 23), Color::new(201, 209, 217))
    }

    /// Tokyo Night theme.
    pub fn tokyo_night() -> (t: Theme)
        ensures
            t == preset(26, 27, 38, 169, 177, 214),
    {
        Theme::new(Color::new(26, 27, 38), Color::new(169, 177, 214))
    }

    /// Catppuccin Mocha theme.
    pub fn catppuccin() -> (t: Theme)
        ensures
            t == preset(30, 30, 46, 205, 214, 244),
    {
        Theme::new(Color::new(30, 30, 46), Color::new(205, 214, 244))
    }

    /// One Dark theme.
    pub fn one_dark() -> (t: Theme)
        ensures
            t == preset(40, 44, 52, 171, 178, 191),
    {
        Theme::new(Color::new(40, 44, 52), Color::new(171, 178, 191))
    }

    /// Gruvbox Dark theme.
    pub fn gruvbox() -> (t: Theme)
        ensures
            t == preset(40, 40, 40, 235, 219, 178),
    {
        Theme::new(Color::new(40, 40, 40), Color::new(235, 219, 178))
    }

    /// Background and foreground to draw with: explicit colours override
    /// the theme's.
    pub fn resolve(&self, background: Option<Color>, foreground: Option<Color>) -> (r: (Color, Color))
        ensures
            r.0 == or_else(background, self.background),
            r.1 == or_else(foreground, self.foreground),
    {
        let bg = match background {
            Some(c) => c,
            None => self.background,
        };
        let fg = match foreground {
            Some(c) => c,
            None => self.foreground,
        };
        (bg, fg)
    }
}

impl Default for Theme {
    fn default() -> (t: Theme)
        ensures
            t == preset(0, 0, 0, 204, 204, 204),
    {
        Theme::dark()
    }
}

} // verus!
