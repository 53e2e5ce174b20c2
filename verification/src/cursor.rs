//! A cursor over the characters of a template, with one character of
//! lookahead. Each character is paired with its offset in the text.

use vstd::prelude::*;
use crate::text::{chars_of, chars_of_bytes, bytes_as_chars};

verus! {

/// The character at `pos` with its offset, or nothing past the end.
pub open spec fn peek_at(s: Seq<char>, pos: int) -> Option<(usize, char)> {
    if 0 <= pos < s.len() {
        Some((pos as usize, s[pos]))
    } else {
        None
    }
}

/// A position in a text that moves forward only.
pub struct ParseIter {
    /// The whole text.
    pub chars: Vec<char>,
    /// How many characters have been read.
    pub index: usize,
}

impl ParseIter {
    /// The whole text the cursor runs over.
    pub open spec fn text(&self) -> Seq<char> {
        self.chars@
    }

    /// The offset of the next character.
    pub open spec fn position(&self) -> int {
        self.index as int
    }

    /// A cursor at the start of the given characters.
    pub fn new(chars: Vec<char>) -> (it: ParseIter)
        ensures
            it.text() == chars@,
            it.position() == 0,
    {
        ParseIter { chars, index: 0 }
    }

    /// A cursor at the start of a text, one character per Unicode scalar value.
    pub fn from_text(text: &str) -> (it: ParseIter)
        ensures
            it.text() == text@,
            it.position() == 0,
    {
        ParseIter { chars: chars_of(text), index: 0 }
    }

    /// A cursor at the start of a byte string, one character per byte.
    pub fn from_bytes(bytes: &[u8]) -> (it: ParseIter)
        ensures
            it.text() == bytes_as_chars(bytes@),
            it.position() == 0,
    {
        ParseIter { chars: chars_of_bytes(bytes), index: 0 }
    }

    /// The offset of the next character.
    pub fn offset(&self) -> (r: usize)
        ensures
            r == self.position(),
    {
        self.index
    }

    /// The next character and its offset, without moving.
    pub fn peek(&self) -> (r: Option<(usize, char)>)
        ensures
            r == peek_at(self.text(), self.position()),
    {
        if self.index < self.chars.len() {
            Some((self.index, self.chars[self.index]))
        } else {
            None
        }
    }

    /// The next character and its offset; the cursor moves past it.
    pub fn next(&mut self) -> (r: Option<(usize, char)>)
        ensures
            r == peek_at(old(self).text(), old(self).position()),
            final(self).text() == old(self).text(),
            final(self).position() == old(self).position() + (if r is Some { 1int } else { 0int }),
    {
        if self.index < self.chars.len() {
            let r = (self.index, self.chars[self.index]);
            self.index = self.index + 1;
            Some(r)
        } else {
            None
        }
    }
}

} // verus!
