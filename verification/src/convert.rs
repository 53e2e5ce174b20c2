//! Rendering one resolved value under one specifier: the dispatch on the
//! conversion type and on the kind of the value.

use vstd::prelude::*;
use vstd::string::StrSliceExecFns;
use vstd::utf8::encode_utf8;
use crate::error::{FormatError, HostError};
use crate::layout::{
    bytes_text, float_digits, float_magnitude, float_text, number_text, padded, string_text,
};
use crate::specifier::{
    CFloatType, CFormatPreconversor, CFormatSpec, CFormatType, CNumberType, SpecView,
};
use crate::value::{Kind, Value};

verus! {

/// Whether `v` is a Unicode scalar value: a code point that is no surrogate.
pub open spec fn is_scalar_value(v: int) -> bool {
    0 <= v <= 0xD7FF || 0xE000 <= v <= 0x10FFFF
}

/// `char::from_u32` of the standard library: the character with the given
/// code point, where that is a Unicode scalar value.
pub assume_specification[ std::char::from_u32 ](i: u32) -> (r: Option<char>)
    ensures
        r == (if is_scalar_value(i as int) {
            Some(i as char)
        } else {
            None
        }),
;

/// What a number conversion answers to a value that is no number of the
/// kind it takes.
pub open spec fn number_required(spec: SpecView, value: Value) -> FormatError {
    FormatError::NumberRequired {
        format_char: spec.format_char,
        accepts_float: spec.format_type == CFormatType::Number(CNumberType::Decimal),
        found: value.class_name,
    }
}

/// The text of a value under a number conversion: integers in any radix,
/// floats in decimal only and by their truncation.
pub open spec fn number_conversion(spec: SpecView, value: Value) -> Result<Seq<char>, FormatError> {
    match value.kind {
        Kind::Integer(n) => Ok(number_text(spec, n@)),
        Kind::Float(truncation) => if spec.format_type == CFormatType::Number(
            CNumberType::Decimal,
        ) {
            match truncation {
                Ok(n) => Ok(number_text(spec, n@)),
                Err(e) => Err(FormatError::Host(e)),
            }
        } else {
            Err(number_required(spec, value))
        },
        _ => Err(number_required(spec, value)),
    }
}

/// The text of a value under a float conversion. The general style is not
/// rendered.
pub open spec fn float_conversion(spec: SpecView, value: Value) -> Result<Seq<char>, FormatError> {
    match value.float {
        Err(e) => Err(FormatError::Host(e)),
        Ok(None) => Err(
            FormatError::FloatRequired { format_char: spec.format_char, found: value.class_name },
        ),
        Ok(Some(f)) => if spec.format_type matches CFormatType::Float(CFloatType::General(_)) {
            Err(FormatError::GeneralFloatNotImplemented)
        } else {
            Ok(float_text(spec, f.sign_positive, float_magnitude(f.magnitude@, f.exponent)))
        },
    }
}

/// One character padded with spaces to the width.
pub open spec fn char_text(spec: SpecView, c: char) -> Seq<char> {
    padded(spec.min_field_width, spec.flags.left_adjust, seq![c], ' ', 0)
}

/// The text of a value under the character conversion: an integer that is a
/// Unicode scalar value, or a text of exactly one character.
pub open spec fn char_conversion(spec: SpecView, value: Value) -> Result<Seq<char>, FormatError> {
    match value.kind {
        Kind::Integer(n) => if is_scalar_value(n@) {
            Ok(char_text(spec, n@ as char))
        } else {
            Err(FormatError::CharOutOfRange)
        },
        Kind::Text(s) => if s@.len() == 1 {
            Ok(char_text(spec, s@[0]))
        } else {
            Err(FormatError::CharRequired)
        },
        _ => Err(FormatError::CharRequired),
    }
}

/// A host conversion cut to the precision and padded, or the host's error.
pub open spec fn string_conversion(
    spec: SpecView,
    form: Result<String, HostError>,
) -> Result<Seq<char>, FormatError> {
    match form {
        Ok(text) => Ok(string_text(spec, text@, spec.precision)),
        Err(e) => Err(FormatError::Host(e)),
    }
}

/// What a specifier makes of a value in a text template.
pub open spec fn text_of(spec: SpecView, value: Value) -> Result<Seq<char>, FormatError> {
    match spec.format_type {
        CFormatType::String(CFormatPreconversor::Str) => string_conversion(spec, value.display),
        CFormatType::String(CFormatPreconversor::Bytes) => Err(FormatError::BytesConversionInText),
        CFormatType::String(_) => string_conversion(spec, value.repr),
        CFormatType::Number(_) => number_conversion(spec, value),
        CFormatType::Float(_) => float_conversion(spec, value),
        CFormatType::Character => char_conversion(spec, value),
    }
}

/// Whether a specifier takes the bytes of a value in a byte template.
pub open spec fn reads_bytes(spec: SpecView) -> bool {
    spec.format_type == CFormatType::String(CFormatPreconversor::Str) || spec.format_type
        == CFormatType::String(CFormatPreconversor::Bytes)
}

/// What a specifier makes of a value in a byte template: `%s` and `%b` take
/// the value's bytes; every other conversion renders as in a text template
/// and is encoded as UTF-8.
pub open spec fn bytes_of(spec: SpecView, value: Value) -> Result<Seq<u8>, FormatError> {
    if reads_bytes(spec) {
        match value.bytes {
            Ok(b) => Ok(bytes_text(spec, b@)),
            Err(e) => Err(FormatError::Host(e)),
        }
    } else {
        match text_of(spec, value) {
            Ok(t) => Ok(encode_utf8(t)),
            Err(e) => Err(e),
        }
    }
}

/// What a specifier reads of a value, for a host that resolves on demand.
#[derive(Debug, PartialEq, Eq, Structural, Clone, Copy)]
pub enum Conversion {
    /// Nothing: the specifier fails whatever the value is.
    Nothing,
    /// The display form.
    Display,
    /// The debug form.
    Repr,
    /// The bytes of the value.
    Bytes,
    /// The kind of the value and the name of its type; of a float its
    /// truncation too, where `truncation` is set.
    Number { truncation: bool },
    /// The value as a float and the name of its type, the digits written
    /// with `precision` digits after the decimal point, in exponent style
    /// where `exponent` is set.
    Float { exponent: bool, precision: usize },
    /// The kind of the value.
    Character,
}

/// What a specifier reads of a value in a text template, or in a byte
/// template.
pub open spec fn conversion_of(spec: SpecView, bytes_template: bool) -> Conversion {
    match spec.format_type {
        CFormatType::String(CFormatPreconversor::Str) => if bytes_template {
            Conversion::Bytes
        } else {
            Conversion::Display
        },
        CFormatType::String(CFormatPreconversor::Bytes) => if bytes_template {
            Conversion::Bytes
        } else {
            Conversion::Nothing
        },
        CFormatType::String(_) => Conversion::Repr,
        CFormatType::Number(number_type) => Conversion::Number {
            truncation: number_type == CNumberType::Decimal,
        },
        CFormatType::Float(float_type) => Conversion::Float {
            exponent: float_type is Exponent,
            precision: float_digits(spec),
        },
        CFormatType::Character => Conversion::Character,
    }
}

/// Whether two floats have the same truncation, as far as a number
/// conversion reads it.
pub open spec fn same_truncation(a: Kind, b: Kind, truncation: bool) -> bool {
    match (a, b) {
        (Kind::Float(x), Kind::Float(y)) => !truncation || x == y,
        (Kind::Float(_), _) => false,
        (_, Kind::Float(_)) => false,
        _ => a == b,
    }
}

/// Whether two values are the same in what a conversion reads.
pub open spec fn agree(conversion: Conversion, a: Value, b: Value) -> bool {
    match conversion {
        Conversion::Nothing => true,
        Conversion::Display => a.display == b.display,
        Conversion::Repr => a.repr == b.repr,
        Conversion::Bytes => a.bytes == b.bytes,
        Conversion::Number { truncation } => a.class_name == b.class_name && same_truncation(
            a.kind,
            b.kind,
            truncation,
        ),
        Conversion::Float { .. } => a.class_name == b.class_name && a.float == b.float,
        Conversion::Character => a.kind == b.kind,
    }
}

impl CFormatSpec {
    /// What the specifier reads of a value in a text template, or in a byte
    /// template: the one conversion that a host has to make for it.
    pub fn conversion(&self, bytes_template: bool) -> (c: Conversion)
        ensures
            c == conversion_of(self@, bytes_template),
    {
        match self.format_type {
            CFormatType::String(CFormatPreconversor::Str) => if bytes_template {
                Conversion::Bytes
            } else {
                Conversion::Display
            },
            CFormatType::String(CFormatPreconversor::Bytes) => if bytes_template {
                Conversion::Bytes
            } else {
                Conversion::Nothing
            },
            CFormatType::String(_) => Conversion::Repr,
            CFormatType::Number(number_type) => Conversion::Number {
                truncation: matches!(number_type, CNumberType::Decimal),
            },
            CFormatType::Float(float_type) => Conversion::Float {
                exponent: matches!(float_type, CFloatType::Exponent(_)),
                precision: self.float_precision(),
            },
            CFormatType::Character => Conversion::Character,
        }
    }

    fn number_required(&self, value: &Value) -> (e: FormatError)
        ensures
            e == number_required(self@, *value),
    {
        FormatError::NumberRequired {
            format_char: self.format_char,
            accepts_float: matches!(self.format_type, CFormatType::Number(CNumberType::Decimal)),
            found: value.class_name.clone(),
        }
    }

    /// Renders one value in a text template.
    pub fn format(&self, value: &Value) -> (r: Result<String, FormatError>)
        ensures
            match text_of(self@, *value) {
                Ok(t) => r matches Ok(s) && s@ == t,
                Err(e) => r matches Err(x) && x == e,
            },
    {
        // do the formatting by type
        match self.format_type {
            CFormatType::String(preconversor) => {
                let result = match preconversor {
                    CFormatPreconversor::Str => &value.display,
                    CFormatPreconversor::Repr | CFormatPreconversor::Ascii => &value.repr,
                    CFormatPreconversor::Bytes => {
                        return Err(FormatError::BytesConversionInText);
                    },
                };
                match result {
                    Ok(text) => Ok(self.format_string(text.clone())),
                    Err(e) => Err(FormatError::Host(e.copy())),
                }
            },
            CFormatType::Number(number_type) => {
                match &value.kind {
                    Kind::Integer(i) => Ok(self.format_number(i)),
                    Kind::Float(truncation) => {
                        if let CNumberType::Decimal = number_type {
                            match truncation {
                                Ok(i) => Ok(self.format_number(i)),
                                Err(e) => Err(FormatError::Host(e.copy())),
                            }
                        } else {
                            Err(self.number_required(value))
                        }
                    },
                    _ => Err(self.number_required(value)),
                }
            },
            CFormatType::Float(float_type) => {
                match &value.float {
                    Err(e) => Err(FormatError::Host(e.copy())),
                    Ok(None) => Err(
                        FormatError::FloatRequired {
                            format_char: self.format_char,
                            found: value.class_name.clone(),
                        },
                    ),
                    Ok(Some(f)) => match float_type {
                        CFloatType::General(_) => Err(FormatError::GeneralFloatNotImplemented),
                        _ => Ok(
                            self.format_float(
                                f.sign_positive,
                                CFormatSpec::float_magnitude_string(f.magnitude.as_str(), f.exponent),
                            ),
                        ),
                    },
                }
            },
            CFormatType::Character => {
                let ch = match &value.kind {
                    Kind::Integer(i) => {
                        let code = match i.to_u32() {
                            Some(code) => std::char::from_u32(code),
                            None => None,
                        };
                        match code {
                            Some(ch) => ch,
                            None => {
                                return Err(FormatError::CharOutOfRange);
                            },
                        }
                    },
                    Kind::Text(s) => {
                        let num_chars = s.as_str().unicode_len();
                        if num_chars != 1 {
                            return Err(FormatError::CharRequired);
                        } else {
                            s.as_str().get_char(0)
                        }
                    },
                    _ => {
                        return Err(FormatError::CharRequired);
                    },
                };
                Ok(self.format_char(ch))
            },
        }
    }

    /// Renders one value in a byte template.
    pub fn bytes_format(&self, value: &Value) -> (r: Result<Vec<u8>, FormatError>)
        ensures
            match bytes_of(self@, *value) {
                Ok(t) => r matches Ok(v) && v@ == t,
                Err(e) => r matches Err(x) && x == e,
            },
    {
        match self.format_type {
            CFormatType::String(CFormatPreconversor::Str)
            | CFormatType::String(CFormatPreconversor::Bytes) => {
                match &value.bytes {
                    Ok(bytes) => Ok(self.format_bytes(bytes.as_slice())),
                    Err(e) => Err(FormatError::Host(e.copy())),
                }
            },
            _ => {
                match self.format(value) {
                    Ok(s) => Ok(s.as_str().as_bytes_vec()),
                    Err(e) => Err(e),
                }
            },
        }
    }
}

} // verus!
