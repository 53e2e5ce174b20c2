//! The two error taxonomies: what can go wrong while a template is read, and
//! what can go wrong while arguments are bound and rendered.

use vstd::prelude::*;
use vstd::string::StringExecFns;
use crate::number::{radix_text, BigNumber};
use crate::text::char_string;

verus! {

/// The kinds of failure the template grammar can report.
#[derive(Debug, PartialEq, Eq, Structural, Clone, Copy)]
pub enum CFormatErrorType {
    /// A `(` opened a mapping key and the text ended before it was closed.
    UnmatchedKeyParentheses,
    /// A standalone specifier did not start with `%`.
    MissingModuloSign,
    /// The conversion character is none of `d i u o x X e E f F g G c r s b a`.
    UnsupportedFormatChar(char),
    /// The text ended inside a specifier.
    IncompleteFormat,
    /// A width or precision does not fit the platform's size type.
    IntTooBig,
}

/// A grammar failure together with the offset at which it was detected.
pub type ParsingError = (CFormatErrorType, usize);

/// A grammar failure of a whole template: its kind and the offset at which it
/// was detected.
#[derive(Debug, PartialEq, Eq, Structural, Clone, Copy)]
pub struct CFormatError {
    pub typ: CFormatErrorType,
    pub index: usize,
}

/// What the host reported when one of its conversions failed.
#[derive(Debug, PartialEq, Eq, Clone)]
pub struct HostError {
    pub message: String,
}

/// The kinds of failure of one formatting call.
#[derive(Debug, PartialEq, Eq, Clone)]
pub enum FormatError {
    /// Every specifier names a key and the arguments are no mapping.
    MappingRequired,
    /// The positional arguments ran out before the specifiers did.
    NotEnoughArguments,
    /// Positional arguments were left over after the last specifier.
    NotAllArgumentsConverted,
    /// A `*` width or precision met an argument that is no integer.
    StarWantsInt,
    /// A `*` width or precision met an integer outside the platform's signed
    /// size type.
    StarTooBig,
    /// A number conversion met a value of the wrong type: the conversion
    /// character, whether a float would have been accepted, and the value's
    /// type name.
    NumberRequired { format_char: char, accepts_float: bool, found: String },
    /// A float conversion met a value that is no number: the conversion
    /// character and the value's type name.
    FloatRequired { format_char: char, found: String },
    /// `%c` met something other than an integer or a one-character text.
    CharRequired,
    /// `%c` met an integer that is no Unicode scalar value.
    CharOutOfRange,
    /// `%b` was asked of a text template.
    BytesConversionInText,
    /// `%g` and `%G` are recognised and not rendered.
    GeneralFloatNotImplemented,
    /// A lookup or a conversion that the host makes for the library failed.
    Host(HostError),
}

impl HostError {
    /// A copy of the error.
    pub fn copy(&self) -> (e: HostError)
        ensures
            e == *self,
    {
        HostError { message: self.message.clone() }
    }
}

/// The words for the type that a number conversion takes.
pub open spec fn required_number(accepts_float: bool) -> Seq<char> {
    if accepts_float {
        "a number"@
    } else {
        "an integer"@
    }
}

impl FormatError {
    /// The message of the error.
    pub open spec fn message(self) -> Seq<char> {
        match self {
            FormatError::MappingRequired => "format requires a mapping"@,
            FormatError::NotEnoughArguments => "not enough arguments for format string"@,
            FormatError::NotAllArgumentsConverted =>
                "not all arguments converted during string formatting"@,
            FormatError::StarWantsInt => "* wants int"@,
            FormatError::StarTooBig => "* argument too big"@,
            FormatError::NumberRequired { format_char, accepts_float, found } => seq!['%'] + seq![
                format_char,
            ] + " format: "@ + required_number(accepts_float) + " is required, not "@ + found@,
            FormatError::FloatRequired { format_char, found } => seq!['%'] + seq![format_char]
                + " format: an floating point or integer is required, not "@ + found@,
            FormatError::CharRequired => "%c requires int or char"@,
            FormatError::CharOutOfRange => "%c arg not in range(0x110000)"@,
            FormatError::BytesConversionInText => "unsupported format character 'b' (0x62)"@,
            FormatError::GeneralFloatNotImplemented => "Not yet implemented for %g and %G"@,
            FormatError::Host(e) => e.message@,
        }
    }

    /// The message of the error, for the host to raise.
    pub fn to_string(&self) -> (s: String)
        ensures
            s@ == self.message(),
    {
        match self {
            FormatError::MappingRequired => String::from_str("format requires a mapping"),
            FormatError::NotEnoughArguments => String::from_str(
                "not enough arguments for format string",
            ),
            FormatError::NotAllArgumentsConverted => String::from_str(
                "not all arguments converted during string formatting",
            ),
            FormatError::StarWantsInt => String::from_str("* wants int"),
            FormatError::StarTooBig => String::from_str("* argument too big"),
            FormatError::NumberRequired { format_char, accepts_float, found } => {
                let required_type_string = if *accepts_float {
                    "a number"
                } else {
                    "an integer"
                };
                let mut s = char_string('%');
                s.push(*format_char);
                s.append(" format: ");
                s.append(required_type_string);
                s.append(" is required, not ");
                s.append(found.as_str());
                assert(seq!['%'].push(*format_char) =~= seq!['%'] + seq![*format_char]);
                s
            },
            FormatError::FloatRequired { format_char, found } => {
                let mut s = char_string('%');
                s.push(*format_char);
                s.append(" format: an floating point or integer is required, not ");
                s.append(found.as_str());
                assert(seq!['%'].push(*format_char) =~= seq!['%'] + seq![*format_char]);
                s
            },
            FormatError::CharRequired => String::from_str("%c requires int or char"),
            FormatError::CharOutOfRange => String::from_str("%c arg not in range(0x110000)"),
            FormatError::BytesConversionInText => String::from_str(
                "unsupported format character 'b' (0x62)",
            ),
            FormatError::GeneralFloatNotImplemented => String::from_str(
                "Not yet implemented for %g and %G",
            ),
            FormatError::Host(e) => e.message.clone(),
        }
    }
}

impl CFormatError {
    /// The message of the error. An unsupported conversion character is
    /// named with its code point in hexadecimal and its offset.
    pub open spec fn message(self) -> Seq<char> {
        match self.typ {
            CFormatErrorType::UnmatchedKeyParentheses => "incomplete format key"@,
            CFormatErrorType::IncompleteFormat => "incomplete format"@,
            CFormatErrorType::UnsupportedFormatChar(c) => "unsupported format character '"@ + seq![
                c,
            ] + "' (0x"@ + radix_text(c as nat, 16) + ") at index "@ + radix_text(
                self.index as nat,
                10,
            ),
            CFormatErrorType::IntTooBig => "width/precision too big"@,
            CFormatErrorType::MissingModuloSign => "unexpected error parsing format string"@,
        }
    }

    /// The message of the error, for the host to raise.
    pub fn to_string(&self) -> (s: String)
        ensures
            s@ == self.message(),
    {
        match self.typ {
            CFormatErrorType::UnmatchedKeyParentheses => String::from_str("incomplete format key"),
            CFormatErrorType::IncompleteFormat => String::from_str("incomplete format"),
            CFormatErrorType::UnsupportedFormatChar(c) => {
                let code = BigNumber::from_u64(c as u64).to_str_radix(16);
                let index = BigNumber::from_u64(self.index as u64).to_str_radix(10);
                let mut s = String::from_str("unsupported format character '");
                s.push(c);
                s.append("' (0x");
                s.append(code.as_str());
                s.append(") at index ");
                s.append(index.as_str());
                assert("unsupported format character '"@.push(c)
                    =~= "unsupported format character '"@ + seq![c]);
                s
            },
            CFormatErrorType::IntTooBig => String::from_str("width/precision too big"),
            _ => String::from_str("unexpected error parsing format string"),
        }
    }

    /// Pairs an error kind with its offset.
    pub fn new(typ: CFormatErrorType, index: usize) -> (e: CFormatError)
        ensures
            e.typ == typ,
            e.index == index,
    {
        CFormatError { typ, index }
    }

    /// The structured form of a grammar failure.
    pub fn from_parsing_error(err: ParsingError) -> (e: CFormatError)
        ensures
            e.typ == err.0,
            e.index == err.1,
    {
        CFormatError { typ: err.0, index: err.1 }
    }
}

} // verus!
