use vstd::prelude::*;

use crate::text::{ascii_lower, to_ascii_lower};

verus! {

/// A key of the keyboard, as far as the screens tell keys apart.
#[derive(Debug, Clone, Copy, PartialEq, Eq, Structural)]
pub enum Key {
    Up,
    Down,
    Left,
    Right,
    Enter,
    Esc,
    /// A function key, by its number.
    F(u8),
    /// A key that types a character.
    Char(char),
    /// Any other key.
    Other,
}

/// A keyboard event: the key, and whether it was pressed (rather than
/// repeated or released).
#[derive(Debug, Clone, Copy, PartialEq, Eq, Structural)]
pub struct KeyPress {
    pub key: Key,
    pub is_press: bool,
}

/// Whether `k` types the letter `c` in either case.
pub open spec fn is_letter_key(k: Key, c: char) -> bool {
    match k {
        Key::Char(x) => ascii_lower(x) == c,
        _ => false,
    }
}

/// Whether `k` types the letter `c` in either case.
pub fn letter_key(k: Key, c: char) -> (r: bool)
    ensures
        r == is_letter_key(k, c),
{
    match k {
        Key::Char(x) => to_ascii_lower(x) == c,
        _ => false,
    }
}

} // verus!
