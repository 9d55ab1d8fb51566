//! The bytes that a key press sends to the child process.

use vstd::prelude::*;

verus! {

/// A key press, as far as the terminal distinguishes keys.
pub enum KeyInput {
    Enter,
    Backspace,
    Tab,
    Escape,
    ArrowUp,
    ArrowDown,
    ArrowRight,
    ArrowLeft,
    Home,
    End,
    Delete,
    /// A key that produces text, given as its UTF-8 bytes.
    Character(Vec<u8>),
    /// Any key that sends nothing.
    Other,
}

/// The bytes that key `k` sends; `ctrl` tells whether Control is held.
pub open spec fn key_bytes(k: KeyInput, ctrl: bool) -> Seq<u8> {
    match k {
        KeyInput::Enter => seq![0x0du8],
        KeyInput::Backspace => seq![0x7fu8],
        KeyInput::Tab => seq![0x09u8],
        KeyInput::Escape => seq![0x1bu8],
        KeyInput::ArrowUp => seq![0x1bu8, 0x5b, 0x41],
        KeyInput::ArrowDown => seq![0x1bu8, 0x5b, 0x42],
        KeyInput::ArrowRight => seq![0x1bu8, 0x5b, 0x43],
        KeyInput::ArrowLeft => seq![0x1bu8, 0x5b, 0x44],
        KeyInput::Home => seq![0x1bu8, 0x5b, 0x48],
        KeyInput::End => seq![0x1bu8, 0x5b, 0x46],
        KeyInput::Delete => seq![0x1bu8, 0x5b, 0x33, 0x7e],
        KeyInput::Character(c) => {
            if ctrl && c@.len() == 1 && 0x61 <= c@[0] <= 0x7a {
                seq![(c@[0] - 0x61 + 1) as u8]
            } else {
                c@
            }
        },
        KeyInput::Other => Seq::empty(),
    }
}

/// The bytes to send for key `key`, with Control held when `ctrl`.
pub fn key_to_bytes(key: KeyInput, ctrl: bool) -> (r: Vec<u8>)
    ensures
        r@ == key_bytes(key, ctrl),
{
    let r = match key {
        KeyInput::Enter => vec![0x0du8],
        KeyInput::Backspace => vec![0x7fu8],
        KeyInput::Tab => vec![0x09u8],
        KeyInput::Escape => vec![0x1bu8],
        KeyInput::ArrowUp => vec![0x1bu8, 0x5b, 0x41],
        KeyInput::ArrowDown => vec![0x1bu8, 0x5b, 0x42],
        KeyInput::ArrowRight => vec![0x1bu8, 0x5b, 0x43],
        KeyInput::ArrowLeft => vec![0x1bu8, 0x5b, 0x44],
        KeyInput::Home => vec![0x1bu8, 0x5b, 0x48],
        KeyInput::End => vec![0x1bu8, 0x5b, 0x46],
        KeyInput::Delete => vec![0x1bu8, 0x5b, 0x33, 0x7e],
        KeyInput::Character(c) => {
            if ctrl && c.len() == 1 && 0x61 <= c[0] && c[0] <= 0x7a {
                vec![c[0] - 0x61 + 1]
            } else {
                c
            }
        },
        KeyInput::Other => Vec::new(),
    };
    proof {
        assert(r@ =~= key_bytes(key, ctrl));
    }
    r
}

} // verus!
