//! The recursive-descent parser: one function per production of the grammar,
//! each reading from a cursor and leaving it just after what it read.

use vstd::prelude::*;
use crate::cursor::ParseIter;
use crate::error::{CFormatErrorType, ParsingError};
use crate::grammar::{
    decimal_value, digit_of, digits_end, first_overflow, flags_at, flags_end, flags_in,
    format_type_at, in_text, is_digit, key_close, length_end, lemma_digits_end_bounds,
    lemma_specifier_advances, mapping_key_at, occurs, parenthesized_at, parts_from,
    precision_at, quantity_at, specifier_at, standalone_specifier, flushed, well_formed,
};
use crate::specifier::{
    parts_view, CConversionFlags, CFloatType, CFormatCase, CFormatPart, CFormatPreconversor,
    CFormatQuantity, CFormatSpec, CFormatType, CNumberType, PartView,
};

verus! {

/// The value of `c` as a decimal digit, where it is one.
pub fn to_digit(c: char) -> (d: Option<u32>)
    ensures
        d is Some == is_digit(c),
        d matches Some(v) ==> v == digit_of(c) && v <= 9,
{
    if '0' <= c && c <= '9' {
        Some(c as u32 - '0' as u32)
    } else {
        None
    }
}

/// Reads the run of flag characters in front of the cursor.
pub fn parse_flags(iter: &mut ParseIter) -> (flags: CConversionFlags)
    ensures
        final(iter).text() == old(iter).text(),
        (flags, final(iter).position()) == flags_at(old(iter).text(), old(iter).position()),
{
    let ghost s = iter.text();
    let ghost start = iter.position();
    let mut flags = CConversionFlags::empty();
    loop
        invariant
            iter.text() == s,
            start <= iter.position(),
            flags_end(s, iter.position()) == flags_end(s, start),
            flags == flags_in(s, start, iter.position()),
        ensures
            iter.text() == s,
            iter.position() == flags_end(s, start),
            flags == flags_in(s, start, iter.position()),
        decreases s.len() - iter.position(),
    {
        let ghost pos = iter.position();
        match iter.peek() {
            Some((_, c)) => {
                if c == '#' {
                    flags.alternate_form = true;
                } else if c == '0' {
                    flags.zero_pad = true;
                } else if c == '-' {
                    flags.left_adjust = true;
                } else if c == ' ' {
                    flags.blank_sign = true;
                } else if c == '+' {
                    flags.sign_char = true;
                } else {
                    break;
                }
                iter.next();
                proof {
                    lemma_occurs_step(s, start, pos, '#');
                    lemma_occurs_step(s, start, pos, '0');
                    lemma_occurs_step(s, start, pos, '-');
                    lemma_occurs_step(s, start, pos, ' ');
                    lemma_occurs_step(s, start, pos, '+');
                }
            },
            None => {
                break;
            },
        }
    }
    flags
}

/// Reads a width or a precision: `*`, a run of digits, or nothing.
pub fn parse_quantity(iter: &mut ParseIter) -> (r: Result<Option<CFormatQuantity>, ParsingError>)
    ensures
        final(iter).text() == old(iter).text(),
        (r, final(iter).position()) == quantity_at(old(iter).text(), old(iter).position()),
{
    let ghost s = iter.text();
    let ghost start = iter.position();
    if let Some((_, c)) = iter.peek() {
        if c == '*' {
            iter.next();
            return Ok(Some(CFormatQuantity::FromValuesTuple));
        }
        if let Some(i) = to_digit(c) {
            let mut num: isize = i as isize;
            iter.next();
            let ghost end = digits_end(s, start);
            proof {
                lemma_digits_end_bounds(s, start + 1);
                reveal_with_fuel(decimal_value, 2);
                reveal_with_fuel(first_overflow, 2);
                assert(decimal_value(s, start, start + 1) == digit_of(s[start]));
            }
            loop
                invariant
                    s == old(iter).text(),
                    start == old(iter).position(),
                    iter.text() == s,
                    in_text(s, start),
                    is_digit(s[start]),
                    start < iter.position() <= end,
                    end == digits_end(s, start),
                    end == digits_end(s, iter.position()),
                    end <= s.len(),
                    num == decimal_value(s, start, iter.position()),
                    first_overflow(s, start, start, end) == first_overflow(
                        s,
                        start,
                        iter.position(),
                        end,
                    ),
                ensures
                    iter.text() == s,
                    iter.position() == end,
                    num == decimal_value(s, start, end),
                    first_overflow(s, start, start, end) == end,
                decreases s.len() - iter.position(),
            {
                let ghost pos = iter.position();
                match iter.peek() {
                    Some((index, c)) => {
                        match to_digit(c) {
                            Some(i) => {
                                proof {
                                    lemma_digits_end_bounds(s, pos + 1);
                                }
                                let next = match num.checked_mul(10) {
                                    Some(scaled) => scaled.checked_add(i as isize),
                                    None => None,
                                };
                                match next {
                                    Some(n) => {
                                        num = n;
                                    },
                                    None => {
                                        return Err((CFormatErrorType::IntTooBig, index));
                                    },
                                }
                                iter.next();
                            },
                            None => {
                                break;
                            },
                        }
                    },
                    None => {
                        break;
                    },
                }
            }
            return Ok(Some(CFormatQuantity::Amount(num as usize)));
        }
    }
    Ok(None)
}

/// Reads the optional `.` and the quantity after it.
pub fn parse_precision(iter: &mut ParseIter) -> (r: Result<Option<CFormatQuantity>, ParsingError>)
    ensures
        final(iter).text() == old(iter).text(),
        (r, final(iter).position()) == precision_at(old(iter).text(), old(iter).position()),
{
    if let Some((_, c)) = iter.peek() {
        if c == '.' {
            iter.next();
            return parse_quantity(iter);
        }
    }
    Ok(None)
}

/// Reads up to the parenthesis that closes a key whose opening parenthesis
/// was read already. Nested parentheses belong to the key.
pub fn parse_text_inside_parentheses(iter: &mut ParseIter) -> (r: Option<String>)
    ensures
        final(iter).text() == old(iter).text(),
        final(iter).position() == parenthesized_at(old(iter).text(), old(iter).position()).1,
        match parenthesized_at(old(iter).text(), old(iter).position()).0 {
            Some(key) => r matches Some(text) && text@ == key,
            None => r is None,
        },
{
    let ghost s = iter.text();
    let ghost start = iter.position();
    // Wider than any offset, so that counting cannot overflow.
    let mut counter: u128 = 1;
    let mut contained_text = String::new();
    assert(start <= s.len() ==> s.subrange(start, start) =~= Seq::<char>::empty());
    loop
        invariant_except_break
            1 <= counter <= iter.position() - start + 1,
            key_close(s, start, 1) == key_close(s, iter.position(), counter as int),
            iter.position() <= s.len() ==> contained_text@ == s.subrange(start, iter.position()),
        invariant
            s == old(iter).text(),
            start == old(iter).position(),
            iter.text() == s,
            start <= iter.position(),
            iter.position() <= s.len() || iter.position() == start,
        ensures
            key_close(s, start, 1) == Some(iter.position() - 1),
            contained_text@ == s.subrange(start, iter.position() - 1),
        decreases s.len() - iter.position(),
    {
        let ghost pos = iter.position();
        let c = match iter.next() {
            Some((_, c)) => c,
            None => {
                return None;
            },
        };
        if c == '(' {
            counter = counter + 1;
        } else if c == ')' {
            counter = counter - 1;
        }
        if counter > 0 {
            contained_text.push(c);
            assert(s.subrange(start, pos).push(c) =~= s.subrange(start, pos + 1));
        } else {
            break;
        }
    }
    Some(contained_text)
}

/// Reads the optional `(key)` in front of the cursor.
pub fn parse_spec_mapping_key(iter: &mut ParseIter) -> (r: Result<Option<String>, ParsingError>)
    ensures
        final(iter).text() == old(iter).text(),
        final(iter).position() == mapping_key_at(old(iter).text(), old(iter).position()).1,
        match mapping_key_at(old(iter).text(), old(iter).position()).0 {
            Ok(Some(key)) => r matches Ok(Some(text)) && text@ == key,
            Ok(None) => r matches Ok(None),
            Err(e) => r == Err::<Option<String>, ParsingError>(e),
        },
{
    if let Some((index, c)) = iter.peek() {
        if c == '(' {
            iter.next();
            return match parse_text_inside_parentheses(iter) {
                Some(key) => Ok(Some(key)),
                None => Err((CFormatErrorType::UnmatchedKeyParentheses, index)),
            };
        }
    }
    Ok(None)
}

/// Reads at most one length modifier, which has no meaning.
pub fn consume_length(iter: &mut ParseIter)
    ensures
        final(iter).text() == old(iter).text(),
        final(iter).position() == length_end(old(iter).text(), old(iter).position()),
{
    match iter.peek() {
        Some((_, c)) => {
            if c == 'h' || c == 'l' || c == 'L' {
                iter.next();
            }
        },
        None => {},
    }
}

/// Reads the conversion character and gives the conversion it stands for.
pub fn parse_format_type(iter: &mut ParseIter) -> (r: Result<(CFormatType, char), ParsingError>)
    ensures
        final(iter).text() == old(iter).text(),
        (r, final(iter).position()) == format_type_at(old(iter).text(), old(iter).position()),
{
    let (index, c) = match iter.next() {
        Some(c) => c,
        None => {
            return Err((CFormatErrorType::IncompleteFormat, iter.offset()));
        },
    };
    let format_type = if c == 'd' || c == 'i' || c == 'u' {
        CFormatType::Number(CNumberType::Decimal)
    } else if c == 'o' {
        CFormatType::Number(CNumberType::Octal)
    } else if c == 'x' {
        CFormatType::Number(CNumberType::Hex(CFormatCase::Lowercase))
    } else if c == 'X' {
        CFormatType::Number(CNumberType::Hex(CFormatCase::Uppercase))
    } else if c == 'e' {
        CFormatType::Float(CFloatType::Exponent(CFormatCase::Lowercase))
    } else if c == 'E' {
        CFormatType::Float(CFloatType::Exponent(CFormatCase::Uppercase))
    } else if c == 'f' || c == 'F' {
        CFormatType::Float(CFloatType::PointDecimal)
    } else if c == 'g' {
        CFormatType::Float(CFloatType::General(CFormatCase::Lowercase))
    } else if c == 'G' {
        CFormatType::Float(CFloatType::General(CFormatCase::Uppercase))
    } else if c == 'c' {
        CFormatType::Character
    } else if c == 'r' {
        CFormatType::String(CFormatPreconversor::Repr)
    } else if c == 's' {
        CFormatType::String(CFormatPreconversor::Str)
    } else if c == 'b' {
        CFormatType::String(CFormatPreconversor::Bytes)
    } else if c == 'a' {
        CFormatType::String(CFormatPreconversor::Ascii)
    } else {
        return Err((CFormatErrorType::UnsupportedFormatChar(c), index));
    };
    Ok((format_type, c))
}

impl CFormatSpec {
    /// Reads one specifier, its `%` already read: key, flags, width,
    /// precision, length modifier and conversion character.
    pub fn parse(iter: &mut ParseIter) -> (r: Result<CFormatSpec, ParsingError>)
        ensures
            final(iter).text() == old(iter).text(),
            final(iter).position() == specifier_at(old(iter).text(), old(iter).position()).1,
            match specifier_at(old(iter).text(), old(iter).position()).0 {
                Ok(v) => r matches Ok(spec) && spec@ == v && well_formed(spec@),
                Err(e) => r matches Err(x) && x == e,
            },
    {
        let mapping_key = match parse_spec_mapping_key(iter) {
            Ok(key) => key,
            Err(e) => {
                return Err(e);
            },
        };
        let flags = parse_flags(iter);
        let min_field_width = match parse_quantity(iter) {
            Ok(width) => width,
            Err(e) => {
                return Err(e);
            },
        };
        let precision = match parse_precision(iter) {
            Ok(precision) => precision,
            Err(e) => {
                return Err(e);
            },
        };
        consume_length(iter);
        let (format_type, format_char) = match parse_format_type(iter) {
            Ok(conversion) => conversion,
            Err(e) => {
                return Err(e);
            },
        };
        let precision = if precision.is_some() {
            precision
        } else {
            match format_type {
                CFormatType::Float(_) => Some(CFormatQuantity::Amount(6)),
                _ => None,
            }
        };

        Ok(CFormatSpec { mapping_key, flags, min_field_width, precision, format_type, format_char })
    }

    /// Reads a specifier written on its own, with its `%`.
    pub fn from_str(text: &str) -> (r: Result<CFormatSpec, ParsingError>)
        ensures
            match standalone_specifier(text@) {
                Ok(v) => r matches Ok(spec) && spec@ == v && well_formed(spec@),
                Err(e) => r matches Err(x) && x == e,
            },
    {
        let mut chars = ParseIter::from_text(text);
        match chars.next() {
            Some((_, '%')) => CFormatSpec::parse(&mut chars),
            _ => Err((CFormatErrorType::MissingModuloSign, 1)),
        }
    }
}

impl std::str::FromStr for CFormatSpec {
    type Err = ParsingError;

    /// Reads a specifier written on its own; see [`CFormatSpec::from_str`].
    fn from_str(text: &str) -> (r: Result<CFormatSpec, ParsingError>)
        ensures
            match standalone_specifier(text@) {
                Ok(v) => r matches Ok(spec) && spec@ == v,
                Err(e) => r matches Err(x) && x == e,
            },
    {
        CFormatSpec::from_str(text)
    }
}

/// Reads a whole template from the cursor to the end of the text: literal
/// runs and specifiers, each with the offset at which it starts.
pub fn parse(iter: &mut ParseIter) -> (r: Result<Vec<(usize, CFormatPart)>, ParsingError>)
    ensures
        final(iter).text() == old(iter).text(),
        final(iter).position() == parts_from(
            old(iter).text(),
            old(iter).position(),
            Seq::empty(),
            Seq::empty(),
            0,
        ).1,
        match parts_from(
            old(iter).text(),
            old(iter).position(),
            Seq::empty(),
            Seq::empty(),
            0,
        ).0 {
            Ok(parts) => r matches Ok(v) && parts_view(v@) == parts,
            Err(e) => r matches Err(x) && x == e,
        },
{
    let ghost s = iter.text();
    let ghost start = iter.position();
    let mut parts: Vec<(usize, CFormatPart)> = Vec::new();
    let mut literal = String::new();
    let mut part_index: usize = 0;
    assert(parts_view(parts@) =~= Seq::<(usize, PartView)>::empty());
    loop
        invariant
            s == old(iter).text(),
            start == old(iter).position(),
            iter.text() == s,
            start <= iter.position(),
            iter.position() <= s.len() || iter.position() == start,
            parts_from(s, start, Seq::empty(), Seq::empty(), 0) == parts_from(
                s,
                iter.position(),
                parts_view(parts@),
                literal@,
                part_index,
            ),
        ensures
            !in_text(s, iter.position()),
            parts_from(s, start, Seq::empty(), Seq::empty(), 0) == parts_from(
                s,
                iter.position(),
                parts_view(parts@),
                literal@,
                part_index,
            ),
        decreases s.len() - iter.position(),
    {
        let (index, c) = match iter.next() {
            Some(item) => item,
            None => {
                break;
            },
        };
        if c == '%' {
            match iter.peek() {
                Some((_, second)) => {
                    if second == '%' {
                        iter.next();
                        literal.push('%');
                    } else {
                        let ghost pending = literal@;
                        let ghost earlier = parts_view(parts@);
                        if !literal.as_str().is_empty() {
                            let ghost before = parts@;
                            parts.push((part_index, CFormatPart::Literal(literal)));
                            literal = String::new();
                            assert(parts_view(parts@) =~= parts_view(before).push(
                                (part_index, PartView::Literal(pending)),
                            ));
                        }
                        assert(literal@ =~= Seq::<char>::empty());
                        assert(parts_view(parts@) == flushed(earlier, pending, part_index));
                        proof {
                            lemma_specifier_advances(s, index + 1);
                        }
                        let spec = match CFormatSpec::parse(iter) {
                            Ok(spec) => spec,
                            Err(e) => {
                                return Err(e);
                            },
                        };
                        let ghost before = parts@;
                        let ghost specifier = spec@;
                        parts.push((index, CFormatPart::Spec(spec)));
                        assert(parts_view(parts@) =~= parts_view(before).push(
                            (index, PartView::Spec(specifier)),
                        ));
                        if let Some((next_index, _)) = iter.peek() {
                            part_index = next_index;
                        }
                    }
                },
                None => {
                    return Err((CFormatErrorType::IncompleteFormat, index + 1));
                },
            }
        } else {
            literal.push(c);
        }
    }
    if !literal.as_str().is_empty() {
        let ghost before = parts@;
        parts.push((part_index, CFormatPart::Literal(literal)));
        assert(parts_view(parts@) =~= parts_view(before).push((part_index, parts@.last().1@)));
    }
    Ok(parts)
}

/// One more position holds `c` exactly when it does or the earlier ones did.
pub proof fn lemma_occurs_step(s: Seq<char>, from: int, to: int, c: char)
    requires
        from <= to,
        in_text(s, to),
    ensures
        occurs(s, from, to + 1, c) == (occurs(s, from, to, c) || s[to] == c),
{
    if occurs(s, from, to, c) {
        let i = choose|i: int| from <= i < to && in_text(s, i) && #[trigger] s[i] == c;
        assert(from <= i < to + 1 && in_text(s, i) && s[i] == c);
    }
    if s[to] == c {
        assert(from <= to < to + 1 && in_text(s, to) && s[to] == c);
    }
}

} // verus!
