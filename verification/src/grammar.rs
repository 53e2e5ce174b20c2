//! The grammar of format templates, as functions on a sequence of characters
//! and a position in it. Every function that reads part of a specifier gives
//! what it read together with the position just after it.

use vstd::prelude::*;
use crate::error::{CFormatErrorType, ParsingError};
use crate::specifier::{
    CConversionFlags, CFloatType, CFormatCase, CFormatPreconversor, CFormatQuantity, CFormatType,
    CNumberType, PartView, SpecView,
};

verus! {

/// Whether `pos` is the offset of a character of `s`.
pub open spec fn in_text(s: Seq<char>, pos: int) -> bool {
    0 <= pos < s.len()
}

// ---------------------------------------------------------------- mapping key

/// The depth of open parentheses after reading `c` at depth `depth`.
pub open spec fn depth_after(depth: int, c: char) -> int {
    if c == '(' {
        depth + 1
    } else if c == ')' {
        depth - 1
    } else {
        depth
    }
}

/// The offset of the parenthesis that closes a key, reading from `pos` with
/// `depth` parentheses open; nothing where the text ends first.
pub open spec fn key_close(s: Seq<char>, pos: int, depth: int) -> Option<int>
    decreases s.len() - pos,
{
    if !in_text(s, pos) {
        None
    } else if depth_after(depth, s[pos]) <= 0 {
        Some(pos)
    } else {
        key_close(s, pos + 1, depth_after(depth, s[pos]))
    }
}

/// The position a cursor is left at once it has read to the end of the text.
pub open spec fn exhausted(s: Seq<char>, pos: int) -> int {
    if pos < s.len() {
        s.len() as int
    } else {
        pos
    }
}

/// The text between balanced parentheses, the opening one already read.
pub open spec fn parenthesized_at(s: Seq<char>, pos: int) -> (Option<Seq<char>>, int) {
    match key_close(s, pos, 1) {
        Some(close) => (Some(s.subrange(pos, close)), close + 1),
        None => (None, exhausted(s, pos)),
    }
}

/// The optional `(key)` at the start of a specifier.
pub open spec fn mapping_key_at(s: Seq<char>, pos: int) -> (
    Result<Option<Seq<char>>, ParsingError>,
    int,
) {
    if in_text(s, pos) && s[pos] == '(' {
        match parenthesized_at(s, pos + 1) {
            (Some(key), next) => (Ok(Some(key)), next),
            (None, next) => (Err((CFormatErrorType::UnmatchedKeyParentheses, pos as usize)), next),
        }
    } else {
        (Ok(None), pos)
    }
}

// ---------------------------------------------------------------------- flags

/// Whether `c` is one of the five flag characters.
pub open spec fn is_flag_char(c: char) -> bool {
    c == '#' || c == '0' || c == '-' || c == ' ' || c == '+'
}

/// The first position at or after `pos` that holds no flag character.
pub open spec fn flags_end(s: Seq<char>, pos: int) -> int
    decreases s.len() - pos,
{
    if in_text(s, pos) && is_flag_char(s[pos]) {
        flags_end(s, pos + 1)
    } else {
        pos
    }
}

/// Whether `c` stands somewhere in `s` from `from` up to, not including, `to`.
pub open spec fn occurs(s: Seq<char>, from: int, to: int, c: char) -> bool {
    exists|i: int| from <= i < to && in_text(s, i) && #[trigger] s[i] == c
}

/// The flags whose characters stand between `from` and `to`.
pub open spec fn flags_in(s: Seq<char>, from: int, to: int) -> CConversionFlags {
    CConversionFlags {
        alternate_form: occurs(s, from, to, '#'),
        zero_pad: occurs(s, from, to, '0'),
        left_adjust: occurs(s, from, to, '-'),
        blank_sign: occurs(s, from, to, ' '),
        sign_char: occurs(s, from, to, '+'),
    }
}

/// The run of flag characters at `pos`, in any order and with repetitions.
pub open spec fn flags_at(s: Seq<char>, pos: int) -> (CConversionFlags, int) {
    (flags_in(s, pos, flags_end(s, pos)), flags_end(s, pos))
}

// ------------------------------------------------------------------- quantity

/// Whether `c` is a decimal digit.
pub open spec fn is_digit(c: char) -> bool {
    '0' <= c && c <= '9'
}

/// The value of a decimal digit.
pub open spec fn digit_of(c: char) -> nat {
    (c as int - '0' as int) as nat
}

/// The first position at or after `pos` that holds no decimal digit.
pub open spec fn digits_end(s: Seq<char>, pos: int) -> int
    decreases s.len() - pos,
{
    if in_text(s, pos) && is_digit(s[pos]) {
        digits_end(s, pos + 1)
    } else {
        pos
    }
}

/// The number that the digits from `from` up to, not including, `to` write.
pub open spec fn decimal_value(s: Seq<char>, from: int, to: int) -> nat
    decreases to - from,
{
    if to <= from {
        0
    } else {
        decimal_value(s, from, to - 1) * 10 + digit_of(s[to - 1])
    }
}

/// The first offset in `i..end` at which the number that starts at `from`
/// outgrows the platform's signed size type, or `end` where none does.
pub open spec fn first_overflow(s: Seq<char>, from: int, i: int, end: int) -> int
    decreases end - i,
{
    if i >= end {
        end
    } else if decimal_value(s, from, i + 1) > isize::MAX {
        i
    } else {
        first_overflow(s, from, i + 1, end)
    }
}

/// A width or a precision: `*`, a run of digits, or nothing. A run whose
/// value outgrows the platform's signed size type fails at the digit that
/// makes it do so, and the cursor stays in front of that digit.
pub open spec fn quantity_at(s: Seq<char>, pos: int) -> (
    Result<Option<CFormatQuantity>, ParsingError>,
    int,
) {
    if in_text(s, pos) && s[pos] == '*' {
        (Ok(Some(CFormatQuantity::FromValuesTuple)), pos + 1)
    } else if in_text(s, pos) && is_digit(s[pos]) {
        let end = digits_end(s, pos);
        let stop = first_overflow(s, pos, pos, end);
        if stop < end {
            (Err((CFormatErrorType::IntTooBig, stop as usize)), stop)
        } else {
            (Ok(Some(CFormatQuantity::Amount(decimal_value(s, pos, end) as usize))), end)
        }
    } else {
        (Ok(None), pos)
    }
}

/// The optional `.` and quantity after the width. A `.` that no quantity
/// follows is read and sets no precision.
pub open spec fn precision_at(s: Seq<char>, pos: int) -> (
    Result<Option<CFormatQuantity>, ParsingError>,
    int,
) {
    if in_text(s, pos) && s[pos] == '.' {
        quantity_at(s, pos + 1)
    } else {
        (Ok(None), pos)
    }
}

// ------------------------------------------------------------ length modifier

/// Whether `c` is one of the length modifiers, which are read and ignored.
pub open spec fn is_length_char(c: char) -> bool {
    c == 'h' || c == 'l' || c == 'L'
}

/// The position after at most one length modifier.
pub open spec fn length_end(s: Seq<char>, pos: int) -> int {
    if in_text(s, pos) && is_length_char(s[pos]) {
        pos + 1
    } else {
        pos
    }
}

// ------------------------------------------------------------ conversion type

/// The conversion that a conversion character stands for.
pub open spec fn format_type_of(c: char) -> Option<CFormatType> {
    if c == 'd' || c == 'i' || c == 'u' {
        Some(CFormatType::Number(CNumberType::Decimal))
    } else if c == 'o' {
        Some(CFormatType::Number(CNumberType::Octal))
    } else if c == 'x' {
        Some(CFormatType::Number(CNumberType::Hex(CFormatCase::Lowercase)))
    } else if c == 'X' {
        Some(CFormatType::Number(CNumberType::Hex(CFormatCase::Uppercase)))
    } else if c == 'e' {
        Some(CFormatType::Float(CFloatType::Exponent(CFormatCase::Lowercase)))
    } else if c == 'E' {
        Some(CFormatType::Float(CFloatType::Exponent(CFormatCase::Uppercase)))
    } else if c == 'f' || c == 'F' {
        Some(CFormatType::Float(CFloatType::PointDecimal))
    } else if c == 'g' {
        Some(CFormatType::Float(CFloatType::General(CFormatCase::Lowercase)))
    } else if c == 'G' {
        Some(CFormatType::Float(CFloatType::General(CFormatCase::Uppercase)))
    } else if c == 'c' {
        Some(CFormatType::Character)
    } else if c == 'r' {
        Some(CFormatType::String(CFormatPreconversor::Repr))
    } else if c == 's' {
        Some(CFormatType::String(CFormatPreconversor::Str))
    } else if c == 'b' {
        Some(CFormatType::String(CFormatPreconversor::Bytes))
    } else if c == 'a' {
        Some(CFormatType::String(CFormatPreconversor::Ascii))
    } else {
        None
    }
}

/// The conversion character that ends a specifier. The end of the text fails
/// at the current offset, any other character at its own.
pub open spec fn format_type_at(s: Seq<char>, pos: int) -> (
    Result<(CFormatType, char), ParsingError>,
    int,
) {
    if !in_text(s, pos) {
        (Err((CFormatErrorType::IncompleteFormat, pos as usize)), pos)
    } else {
        match format_type_of(s[pos]) {
            Some(format_type) => (Ok((format_type, s[pos])), pos + 1),
            None => (Err((CFormatErrorType::UnsupportedFormatChar(s[pos]), pos as usize)), pos + 1),
        }
    }
}

// ------------------------------------------------------------------ specifier

/// The precision a specifier ends up with: the one written, else six digits
/// for a float conversion, else none.
pub open spec fn effective_precision(
    written: Option<CFormatQuantity>,
    format_type: CFormatType,
) -> Option<CFormatQuantity> {
    if written is Some {
        written
    } else if format_type is Float {
        Some(CFormatQuantity::Amount(6))
    } else {
        None
    }
}

/// One specifier, the `%` already read: key, flags, width, precision, length
/// modifier and conversion character, in that order.
pub open spec fn specifier_at(s: Seq<char>, pos: int) -> (Result<SpecView, ParsingError>, int) {
    let (key, after_key) = mapping_key_at(s, pos);
    match key {
        Err(e) => (Err(e), after_key),
        Ok(mapping_key) => {
            let (flags, after_flags) = flags_at(s, after_key);
            let (width, after_width) = quantity_at(s, after_flags);
            match width {
                Err(e) => (Err(e), after_width),
                Ok(min_field_width) => {
                    let (written, after_precision) = precision_at(s, after_width);
                    match written {
                        Err(e) => (Err(e), after_precision),
                        Ok(precision) => {
                            let after_length = length_end(s, after_precision);
                            let (conversion, next) = format_type_at(s, after_length);
                            match conversion {
                                Err(e) => (Err(e), next),
                                Ok((format_type, format_char)) => (
                                    Ok(
                                        SpecView {
                                            mapping_key,
                                            flags,
                                            min_field_width,
                                            precision: effective_precision(precision, format_type),
                                            format_type,
                                            format_char,
                                        },
                                    ),
                                    next,
                                ),
                            }
                        },
                    }
                },
            }
        },
    }
}

/// Whether a specifier is as the grammar gives it: its conversion is the one
/// that its conversion character stands for, and a float conversion has a
/// precision.
pub open spec fn well_formed(spec: SpecView) -> bool {
    format_type_of(spec.format_char) == Some(spec.format_type) && (spec.format_type is Float
        ==> spec.precision is Some)
}

/// Whether every specifier among the parts is as the grammar gives it.
pub open spec fn all_well_formed(parts: Seq<(usize, PartView)>) -> bool {
    forall|i: int|
        0 <= i < parts.len() ==> (#[trigger] parts[i].1 matches PartView::Spec(spec)
            ==> well_formed(spec))
}

/// A specifier written on its own, with its `%`.
pub open spec fn standalone_specifier(s: Seq<char>) -> Result<SpecView, ParsingError> {
    if in_text(s, 0) && s[0] == '%' {
        specifier_at(s, 1).0
    } else {
        Err((CFormatErrorType::MissingModuloSign, 1usize))
    }
}

// ------------------------------------------------------------------- template

/// The parts read so far, with the pending literal added where it is not empty.
pub open spec fn flushed(
    parts: Seq<(usize, PartView)>,
    literal: Seq<char>,
    literal_start: usize,
) -> Seq<(usize, PartView)> {
    if literal.len() > 0 {
        parts.push((literal_start, PartView::Literal(literal)))
    } else {
        parts
    }
}

/// The offset recorded for the literal that follows a specifier ending at
/// `next`: the offset of its first character, where there is one.
pub open spec fn literal_start_after(s: Seq<char>, next: int, before: usize) -> usize {
    if in_text(s, next) {
        next as usize
    } else {
        before
    }
}

/// The parts of a template from `pos` on, given the parts and the pending
/// literal read before `pos`, and the position at which reading stops. `%%`
/// adds one `%` to the literal; any other `%` ends the literal and starts a
/// specifier; a `%` at the very end fails.
pub open spec fn parts_from(
    s: Seq<char>,
    pos: int,
    parts: Seq<(usize, PartView)>,
    literal: Seq<char>,
    literal_start: usize,
) -> (Result<Seq<(usize, PartView)>, ParsingError>, int)
    decreases s.len() - pos,
{
    if !in_text(s, pos) {
        (Ok(flushed(parts, literal, literal_start)), pos)
    } else if s[pos] != '%' {
        parts_from(s, pos + 1, parts, literal.push(s[pos]), literal_start)
    } else if !in_text(s, pos + 1) {
        (Err((CFormatErrorType::IncompleteFormat, (pos + 1) as usize)), pos + 1)
    } else if s[pos + 1] == '%' {
        parts_from(s, pos + 2, parts, literal.push('%'), literal_start)
    } else {
        match specifier_at(s, pos + 1) {
            (Err(e), next) => (Err(e), next),
            (Ok(specifier), next) => {
                proof {
                    lemma_specifier_advances(s, pos + 1);
                }
                parts_from(
                    s,
                    next,
                    flushed(parts, literal, literal_start).push(
                        (pos as usize, PartView::Spec(specifier)),
                    ),
                    Seq::empty(),
                    literal_start_after(s, next, literal_start),
                )
            },
        }
    }
}

/// The parts of a whole template.
pub open spec fn template_parts(s: Seq<char>) -> Result<Seq<(usize, PartView)>, ParsingError> {
    parts_from(s, 0, Seq::empty(), Seq::empty(), 0).0
}

// --------------------------------------------------------------------- lemmas

/// The closing parenthesis of a key lies at or after the position read from.
pub proof fn lemma_key_close_bounds(s: Seq<char>, pos: int, depth: int)
    ensures
        key_close(s, pos, depth) matches Some(close) ==> pos <= close < s.len(),
    decreases s.len() - pos,
{
    if in_text(s, pos) && depth_after(depth, s[pos]) > 0 {
        lemma_key_close_bounds(s, pos + 1, depth_after(depth, s[pos]));
    }
}

/// A run of flag characters ends at or after its start.
pub proof fn lemma_flags_end_bounds(s: Seq<char>, pos: int)
    ensures
        pos <= flags_end(s, pos),
        in_text(s, pos) ==> flags_end(s, pos) <= s.len(),
    decreases s.len() - pos,
{
    if in_text(s, pos) && is_flag_char(s[pos]) {
        lemma_flags_end_bounds(s, pos + 1);
    }
}

/// A run of digits ends at or after its start.
pub proof fn lemma_digits_end_bounds(s: Seq<char>, pos: int)
    ensures
        pos <= digits_end(s, pos),
        in_text(s, pos) ==> digits_end(s, pos) <= s.len(),
    decreases s.len() - pos,
{
    if in_text(s, pos) && is_digit(s[pos]) {
        lemma_digits_end_bounds(s, pos + 1);
    }
}

/// The first overflow of a run lies inside the part that was searched.
pub proof fn lemma_first_overflow_bounds(s: Seq<char>, from: int, i: int, end: int)
    requires
        i <= end,
    ensures
        i <= first_overflow(s, from, i, end) <= end,
    decreases end - i,
{
    if i < end && decimal_value(s, from, i + 1) <= isize::MAX {
        lemma_first_overflow_bounds(s, from, i + 1, end);
    }
}

/// A width or a precision never moves the cursor back.
pub proof fn lemma_quantity_advances(s: Seq<char>, pos: int)
    ensures
        pos <= quantity_at(s, pos).1,
{
    if in_text(s, pos) && is_digit(s[pos]) {
        lemma_digits_end_bounds(s, pos);
        lemma_first_overflow_bounds(s, pos, pos, digits_end(s, pos));
    }
}

/// A specifier that is read is well formed.
pub proof fn lemma_specifier_well_formed(s: Seq<char>, pos: int)
    ensures
        specifier_at(s, pos).0 matches Ok(spec) ==> well_formed(spec),
{
}

/// The parts that are read are well formed where those read before are.
pub proof fn lemma_parts_well_formed(
    s: Seq<char>,
    pos: int,
    parts: Seq<(usize, PartView)>,
    literal: Seq<char>,
    literal_start: usize,
)
    requires
        all_well_formed(parts),
    ensures
        parts_from(s, pos, parts, literal, literal_start).0 matches Ok(all) ==> all_well_formed(
            all,
        ),
    decreases s.len() - pos,
{
    if !in_text(s, pos) {
    } else if s[pos] != '%' {
        lemma_parts_well_formed(s, pos + 1, parts, literal.push(s[pos]), literal_start);
    } else if !in_text(s, pos + 1) {
    } else if s[pos + 1] == '%' {
        lemma_parts_well_formed(s, pos + 2, parts, literal.push('%'), literal_start);
    } else {
        match specifier_at(s, pos + 1) {
            (Err(e), _) => {},
            (Ok(specifier), next) => {
                lemma_specifier_advances(s, pos + 1);
                lemma_specifier_well_formed(s, pos + 1);
                let grown = flushed(parts, literal, literal_start).push(
                    (pos as usize, PartView::Spec(specifier)),
                );
                assert forall|i: int| 0 <= i < grown.len() implies (#[trigger] grown[i].1 matches PartView::Spec(
                    spec,
                ) ==> well_formed(spec)) by {
                    if i < parts.len() {
                        assert(grown[i] == parts[i]);
                    }
                }
                lemma_parts_well_formed(
                    s,
                    next,
                    grown,
                    Seq::empty(),
                    literal_start_after(s, next, literal_start),
                );
            },
        }
    }
}

/// A specifier that is read takes at least its conversion character.
pub proof fn lemma_specifier_advances(s: Seq<char>, pos: int)
    ensures
        specifier_at(s, pos).0 is Ok ==> pos < specifier_at(s, pos).1,
{
    let (key, after_key) = mapping_key_at(s, pos);
    if in_text(s, pos) && s[pos] == '(' {
        lemma_key_close_bounds(s, pos + 1, 1);
    }
    lemma_flags_end_bounds(s, after_key);
    let after_flags = flags_end(s, after_key);
    lemma_quantity_advances(s, after_flags);
    let after_width = quantity_at(s, after_flags).1;
    lemma_quantity_advances(s, after_width + 1);
}

} // verus!
