//! What the renderers produce, as functions on sequences: padding to a
//! width, truncation to a precision, and the build-up of a number from sign,
//! prefix and digits.

use vstd::prelude::*;
use crate::number::radix_text;
use crate::specifier::{CFormatCase, CFormatQuantity, CFormatType, CNumberType, SpecView};
use crate::text::{repeated, uppercase};

verus! {

/// The amount that a quantity fixes, where it fixes one.
pub open spec fn fixed_amount(q: Option<CFormatQuantity>) -> Option<usize> {
    match q {
        Some(CFormatQuantity::Amount(n)) => Some(n),
        _ => None,
    }
}

/// How many fill items a content of `len` items needs to reach the width.
pub open spec fn padding(width: Option<CFormatQuantity>, len: nat) -> nat {
    match fixed_amount(width) {
        Some(w) => if w > len {
            (w - len) as nat
        } else {
            0
        },
        None => 0,
    }
}

/// The content brought to the width with fill items, on the left or, when
/// left-adjusted, on the right. `prefix` items that stand elsewhere count
/// towards the width.
pub open spec fn padded<T>(
    width: Option<CFormatQuantity>,
    left_adjust: bool,
    content: Seq<T>,
    fill: T,
    prefix: nat,
) -> Seq<T> {
    let fill_items = repeated(fill, padding(width, content.len() + prefix));
    if left_adjust {
        content + fill_items
    } else {
        fill_items + content
    }
}

/// The content cut to the precision, where one is fixed and is shorter.
pub open spec fn truncated<T>(content: Seq<T>, precision: Option<CFormatQuantity>) -> Seq<T> {
    match fixed_amount(precision) {
        Some(p) => if content.len() > p {
            content.take(p as int)
        } else {
            content
        },
        None => content,
    }
}

/// A text cut to a precision and padded with spaces to the specifier's width.
pub open spec fn string_text(
    spec: SpecView,
    text: Seq<char>,
    precision: Option<CFormatQuantity>,
) -> Seq<char> {
    padded(spec.min_field_width, spec.flags.left_adjust, truncated(text, precision), ' ', 0)
}

/// Bytes cut to the specifier's precision and padded with spaces to its
/// width, both counted in bytes.
pub open spec fn bytes_text(spec: SpecView, bytes: Seq<u8>) -> Seq<u8> {
    padded(
        spec.min_field_width,
        spec.flags.left_adjust,
        truncated(bytes, spec.precision),
        0x20u8,
        0,
    )
}

/// The radix prefix of a number conversion in alternate form.
pub open spec fn radix_prefix(spec: SpecView) -> Seq<char> {
    if spec.flags.alternate_form {
        match spec.format_type {
            CFormatType::Number(CNumberType::Octal) => seq!['0', 'o'],
            CFormatType::Number(CNumberType::Hex(CFormatCase::Lowercase)) => seq!['0', 'x'],
            CFormatType::Number(CNumberType::Hex(CFormatCase::Uppercase)) => seq!['0', 'X'],
            _ => Seq::empty(),
        }
    } else {
        Seq::empty()
    }
}

/// The digits of a magnitude in the radix of a number conversion.
pub open spec fn magnitude_text(format_type: CFormatType, magnitude: nat) -> Seq<char> {
    match format_type {
        CFormatType::Number(CNumberType::Octal) => radix_text(magnitude, 8),
        CFormatType::Number(CNumberType::Hex(CFormatCase::Lowercase)) => radix_text(magnitude, 16),
        CFormatType::Number(CNumberType::Hex(CFormatCase::Uppercase)) => uppercase(
            radix_text(magnitude, 16),
        ),
        _ => radix_text(magnitude, 10),
    }
}

/// The sign in front of a number: `-` for a negative one whatever the flags
/// say, else what the flags ask for.
pub open spec fn sign_of(spec: SpecView, negative: bool) -> Seq<char> {
    if negative {
        seq!['-']
    } else {
        spec.flags.sign_text()
    }
}

/// The character that zero-padding fills with: `0`, or a space when the
/// specifier is left-adjusted as well.
pub open spec fn zero_fill(spec: SpecView) -> char {
    if spec.flags.left_adjust {
        ' '
    } else {
        '0'
    }
}

/// Sign, prefix and digits brought to the specifier's width. With zero-pad
/// the fill stands between the prefix and the digits; without, around the
/// whole.
pub open spec fn signed_text(
    spec: SpecView,
    sign: Seq<char>,
    prefix: Seq<char>,
    digits: Seq<char>,
) -> Seq<char> {
    if spec.flags.zero_pad {
        (sign + prefix) + padded(
            spec.min_field_width,
            spec.flags.left_adjust,
            digits,
            zero_fill(spec),
            (sign + prefix).len(),
        )
    } else {
        padded(spec.min_field_width, spec.flags.left_adjust, sign + prefix + digits, ' ', 0)
    }
}

/// An integer as a number conversion renders it.
pub open spec fn number_text(spec: SpecView, value: int) -> Seq<char> {
    signed_text(
        spec,
        sign_of(spec, value < 0),
        radix_prefix(spec),
        magnitude_text(spec.format_type, (if value < 0 { -value } else { value }) as nat),
    )
}

/// The exponent part of a float in exponent style: `e`, the sign of the
/// exponent, and its digits, at least two of them.
pub open spec fn exponent_text(exponent: int) -> Seq<char> {
    let magnitude = (if exponent < 0 {
        -exponent
    } else {
        exponent
    }) as nat;
    seq!['e'] + (if exponent < 0 {
        seq!['-']
    } else {
        seq!['+']
    }) + (if magnitude < 10 {
        seq!['0']
    } else {
        Seq::empty()
    }) + radix_text(magnitude, 10)
}

/// The digits of a float with the exponent part, where it has one.
pub open spec fn float_magnitude(digits: Seq<char>, exponent: Option<i32>) -> Seq<char> {
    match exponent {
        Some(e) => digits + exponent_text(e as int),
        None => digits,
    }
}

/// A float as a float conversion renders it, given its sign and the digits
/// of its magnitude.
pub open spec fn float_text(spec: SpecView, sign_positive: bool, magnitude: Seq<char>) -> Seq<char> {
    signed_text(spec, sign_of(spec, !sign_positive), Seq::empty(), magnitude)
}

/// The number of digits after the decimal point of a float conversion: the
/// fixed precision, else six.
pub open spec fn float_digits(spec: SpecView) -> usize {
    match fixed_amount(spec.precision) {
        Some(p) => p,
        None => 6,
    }
}

} // verus!
