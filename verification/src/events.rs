//! Change notifications and the submitted-text value.
//!
//! A mutating key action emits at most one [`InputChange`]; pure navigation
//! emits none. Submission is a different event class: it carries the whole
//! committed text as a [`Text`] value, never a `Remove` change.

use vstd::prelude::*;

verus! {

/// A single edit to the buffer: the character and the logical cursor
/// position *after* the edit (the position the cursor occupies once the
/// character is added or gone, not the index the character originally held).
#[derive(Debug, Clone, Copy, PartialEq, Eq, Structural)]
pub enum InputChange {
    Insert(char, usize),
    Remove(char, usize),
}

impl InputChange {
    /// Build a `Remove` change from a signed position, as hosts that count
    /// columns in signed integers produce.
    pub fn remove(character: char, pos: i32) -> (r: Self)
        requires
            0 <= pos,
        ensures
            r == InputChange::Remove(character, pos as usize),
    {
        Self::Remove(character, pos as usize)
    }

    /// Build an `Insert` change from a signed position.
    pub fn insert(character: char, pos: i32) -> (r: Self)
        requires
            0 <= pos,
        ensures
            r == InputChange::Insert(character, pos as usize),
    {
        Self::Insert(character, pos as usize)
    }
}

/// Text committed by a submit action: the buffer's characters at the moment
/// the user pressed enter.
#[derive(Debug)]
pub struct Text {
    chars: Vec<char>,
}

impl View for Text {
    type V = Seq<char>;

    closed spec fn view(&self) -> Seq<char> {
        self.chars@
    }
}

impl Text {
    /// Wrap a sequence of characters as committed text.
    pub fn new(chars: Vec<char>) -> (r: Self)
        ensures
            r@ == chars@,
    {
        Text { chars }
    }

    /// The committed characters.
    pub fn chars(&self) -> (r: &Vec<char>)
        ensures
            r@ == self@,
    {
        &self.chars
    }

    /// How many characters were committed.
    pub fn char_count(&self) -> (n: usize)
        ensures
            n == self@.len(),
    {
        self.chars.len()
    }
}

} // verus!
