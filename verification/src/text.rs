//! Helpers on `String` and `Vec<char>` that the parser and the renderers share.

use vstd::prelude::*;
use vstd::std_specs::iter::IteratorSpec;
use vstd::string::{StrSliceExecFns, StringExecFns};
use vstd::utf8::encode_utf8;

verus! {

/// `String::push` of the standard library: the character is appended to the
/// end of the string and nothing else changes.
pub assume_specification[ std::string::String::push ](s: &mut std::string::String, ch: char)
    ensures
        final(s)@ == old(s)@.push(ch),
;

/// The characters of a text, in order.
pub fn chars_of(text: &str) -> (v: Vec<char>)
    ensures
        v@ == text@,
{
    let mut v: Vec<char> = Vec::new();
    for c in it: text.chars()
        invariant
            v@ == it.seq().take(it.index()),
            it.seq() == text@,
    {
        v.push(c);
    }
    v
}

/// Each byte read as the character with that code point.
pub open spec fn bytes_as_chars(bytes: Seq<u8>) -> Seq<char> {
    Seq::new(bytes.len(), |i: int| bytes[i] as char)
}

/// The characters that stand for a byte string, one per byte.
pub fn chars_of_bytes(bytes: &[u8]) -> (v: Vec<char>)
    ensures
        v@ == bytes_as_chars(bytes@),
{
    let mut v: Vec<char> = Vec::new();
    let mut i: usize = 0;
    while i < bytes.len()
        invariant
            i <= bytes.len(),
            v@ == bytes_as_chars(bytes@).take(i as int),
        decreases bytes.len() - i,
    {
        v.push(bytes[i] as char);
        i = i + 1;
    }
    v
}

/// The bytes of one character of a byte template: a character that stands
/// for a byte is that byte, any other is encoded as UTF-8.
pub open spec fn char_bytes(c: char) -> Seq<u8> {
    if (c as u32) < 256 {
        seq![c as u8]
    } else {
        encode_utf8(seq![c])
    }
}

/// The bytes of a literal of a byte template, character by character.
pub open spec fn literal_bytes(text: Seq<char>) -> Seq<u8>
    decreases text.len(),
{
    if text.len() == 0 {
        Seq::empty()
    } else {
        literal_bytes(text.drop_last()) + char_bytes(text.last())
    }
}

/// The bytes of a literal of a byte template.
pub fn literal_to_bytes(text: &str) -> (v: Vec<u8>)
    ensures
        v@ == literal_bytes(text@),
{
    let mut v: Vec<u8> = Vec::new();
    for c in it: text.chars()
        invariant
            it.seq() == text@,
            v@ == literal_bytes(text@.take(it.index())),
    {
        let ghost before = v@;
        if (c as u32) < 256 {
            v.push(c as u8);
        } else {
            let one = char_string(c);
            let mut encoded = one.as_str().as_bytes_vec();
            v.append(&mut encoded);
        }
        assert(v@ =~= before + char_bytes(c));
        assert(text@.take(it.index() + 1).drop_last() =~= text@.take(it.index()));
    }
    assert(text@.take(text@.len() as int) =~= text@);
    v
}

/// Bytes that were read as characters are written back as they were.
pub proof fn lemma_literal_bytes_of_bytes(bytes: Seq<u8>)
    ensures
        literal_bytes(bytes_as_chars(bytes)) == bytes,
    decreases bytes.len(),
{
    if bytes.len() > 0 {
        lemma_literal_bytes_of_bytes(bytes.drop_last());
        assert(bytes_as_chars(bytes).drop_last() =~= bytes_as_chars(bytes.drop_last()));
        assert(char_bytes(bytes_as_chars(bytes).last()) =~= seq![bytes.last()]);
        assert(bytes.drop_last() + seq![bytes.last()] =~= bytes);
    } else {
        assert(literal_bytes(bytes_as_chars(bytes)) =~= bytes);
    }
}

/// `n` copies of one item.
pub open spec fn repeated<T>(c: T, n: nat) -> Seq<T> {
    Seq::new(n, |i: int| c)
}

/// The upper-case form of an ASCII letter; any other character is kept.
pub open spec fn upper(c: char) -> char {
    if 'a' <= c && c <= 'z' {
        (c as nat - 32) as char
    } else {
        c
    }
}

/// A text with its ASCII letters in upper case.
pub open spec fn uppercase(s: Seq<char>) -> Seq<char> {
    Seq::new(s.len(), |i: int| upper(s[i]))
}

/// The upper-case form of an ASCII letter; any other character is kept.
pub fn to_upper(c: char) -> (u: char)
    ensures
        u == upper(c),
{
    if 'a' <= c && c <= 'z' {
        (c as u8 - 32) as char
    } else {
        c
    }
}

/// A copy of the text with its ASCII letters in upper case.
pub fn to_uppercase(text: &str) -> (r: String)
    ensures
        r@ == uppercase(text@),
{
    let mut r = String::new();
    for c in it: text.chars()
        invariant
            it.seq() == text@,
            r@ == uppercase(text@.take(it.index())),
    {
        r.push(to_upper(c));
        assert(uppercase(text@.take(it.index() + 1)) =~= uppercase(text@.take(it.index())).push(
            upper(c),
        ));
    }
    assert(text@.take(text@.len() as int) =~= text@);
    r
}

/// The text that holds one character.
pub fn char_string(c: char) -> (r: String)
    ensures
        r@ == seq![c],
{
    let mut r = String::new();
    r.push(c);
    assert(r@ =~= seq![c]);
    r
}

/// Two texts, one after the other.
pub fn concat(first: &str, second: &str) -> (r: String)
    ensures
        r@ == first@ + second@,
{
    let mut r = String::from_str(first);
    r.append(second);
    r
}

} // verus!
