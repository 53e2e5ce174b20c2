//! The specifier record: flags, width, precision and conversion type of one
//! `%` directive, and the parts a template is made of.

use vstd::prelude::*;

verus! {

/// How a value is turned into text before `%s`-like formatting.
#[derive(Debug, PartialEq, Eq, Structural, Clone, Copy)]
pub enum CFormatPreconversor {
    Repr,
    Str,
    Ascii,
    Bytes,
}

/// Letter case of hexadecimal digits and exponent markers.
#[derive(Debug, PartialEq, Eq, Structural, Clone, Copy)]
pub enum CFormatCase {
    Lowercase,
    Uppercase,
}

/// Radix of an integer conversion.
#[derive(Debug, PartialEq, Eq, Structural, Clone, Copy)]
pub enum CNumberType {
    Decimal,
    Octal,
    Hex(CFormatCase),
}

/// Style of a float conversion.
#[derive(Debug, PartialEq, Eq, Structural, Clone, Copy)]
pub enum CFloatType {
    Exponent(CFormatCase),
    PointDecimal,
    General(CFormatCase),
}

/// The semantic category of value a specifier renders.
#[derive(Debug, PartialEq, Eq, Structural, Clone, Copy)]
pub enum CFormatType {
    Number(CNumberType),
    Float(CFloatType),
    Character,
    String(CFormatPreconversor),
}

/// The five independent flags of a specifier.
#[derive(Debug, PartialEq, Eq, Structural, Clone, Copy)]
pub struct CConversionFlags {
    /// `#`: radix prefix on octal and hexadecimal output.
    pub alternate_form: bool,
    /// `0`: pad with zeros between sign and digits.
    pub zero_pad: bool,
    /// `-`: pad on the right; overrides `zero_pad`.
    pub left_adjust: bool,
    /// ` `: a space in front of a non-negative number.
    pub blank_sign: bool,
    /// `+`: a plus in front of a non-negative number; overrides `blank_sign`.
    pub sign_char: bool,
}

/// A width or a precision.
#[derive(Debug, PartialEq, Eq, Structural, Clone, Copy)]
pub enum CFormatQuantity {
    /// Known when the template is read.
    Amount(usize),
    /// `*`: taken from the positional arguments when the template is used.
    FromValuesTuple,
}

/// One `%` directive of a template.
#[derive(Debug, PartialEq, Eq, Clone)]
pub struct CFormatSpec {
    pub mapping_key: Option<String>,
    pub flags: CConversionFlags,
    pub min_field_width: Option<CFormatQuantity>,
    pub precision: Option<CFormatQuantity>,
    pub format_type: CFormatType,
    pub format_char: char,
}

/// The mathematical content of a [`CFormatSpec`].
pub struct SpecView {
    pub mapping_key: Option<Seq<char>>,
    pub flags: CConversionFlags,
    pub min_field_width: Option<CFormatQuantity>,
    pub precision: Option<CFormatQuantity>,
    pub format_type: CFormatType,
    pub format_char: char,
}

/// One part of a template: literal text or a specifier.
#[derive(Debug, PartialEq, Eq, Clone)]
pub enum CFormatPart {
    Literal(String),
    Spec(CFormatSpec),
}

/// The mathematical content of a [`CFormatPart`].
pub enum PartView {
    Literal(Seq<char>),
    Spec(SpecView),
}

/// The text that stands for an optional string.
pub open spec fn option_text(o: Option<String>) -> Option<Seq<char>> {
    match o {
        Some(s) => Some(s@),
        None => None,
    }
}

impl View for CFormatSpec {
    type V = SpecView;

    open spec fn view(&self) -> SpecView {
        SpecView {
            mapping_key: option_text(self.mapping_key),
            flags: self.flags,
            min_field_width: self.min_field_width,
            precision: self.precision,
            format_type: self.format_type,
            format_char: self.format_char,
        }
    }
}

impl View for CFormatPart {
    type V = PartView;

    open spec fn view(&self) -> PartView {
        match *self {
            CFormatPart::Literal(s) => PartView::Literal(s@),
            CFormatPart::Spec(s) => PartView::Spec(s@),
        }
    }
}

/// The parts of a template as mathematical values, each with its offset.
pub open spec fn parts_view(parts: Seq<(usize, CFormatPart)>) -> Seq<(usize, PartView)> {
    Seq::new(parts.len(), |i: int| (parts[i].0, parts[i].1@))
}

impl CConversionFlags {
    /// No flag set.
    pub fn empty() -> (f: CConversionFlags)
        ensures
            f == (CConversionFlags {
                alternate_form: false,
                zero_pad: false,
                left_adjust: false,
                blank_sign: false,
                sign_char: false,
            }),
    {
        CConversionFlags {
            alternate_form: false,
            zero_pad: false,
            left_adjust: false,
            blank_sign: false,
            sign_char: false,
        }
    }

    /// Every flag set.
    pub fn all() -> (f: CConversionFlags)
        ensures
            f == (CConversionFlags {
                alternate_form: true,
                zero_pad: true,
                left_adjust: true,
                blank_sign: true,
                sign_char: true,
            }),
    {
        CConversionFlags {
            alternate_form: true,
            zero_pad: true,
            left_adjust: true,
            blank_sign: true,
            sign_char: true,
        }
    }

    /// The sign a non-negative number gets: `+` before a space before nothing.
    pub open spec fn sign_text(self) -> Seq<char> {
        if self.sign_char {
            seq!['+']
        } else if self.blank_sign {
            seq![' ']
        } else {
            Seq::empty()
        }
    }

    /// The sign a non-negative number gets under these flags.
    pub fn sign_string(&self) -> (s: &'static str)
        ensures
            s@ == self.sign_text(),
    {
        proof {
            reveal_strlit("+");
            reveal_strlit(" ");
            reveal_strlit("");
        }
        if self.sign_char {
            assert("+"@ =~= seq!['+']);
            "+"
        } else if self.blank_sign {
            assert(" "@ =~= seq![' ']);
            " "
        } else {
            assert(""@ =~= Seq::<char>::empty());
            ""
        }
    }
}

impl CFormatPart {
    /// Whether this part is a specifier.
    pub fn is_specifier(&self) -> (b: bool)
        ensures
            b == (self@ is Spec),
    {
        matches!(self, CFormatPart::Spec(_))
    }

    /// Whether this part is a specifier that names a mapping key.
    pub fn has_key(&self) -> (b: bool)
        ensures
            b == (self@ matches PartView::Spec(s) && s.mapping_key is Some),
    {
        match self {
            CFormatPart::Spec(s) => s.mapping_key.is_some(),
            _ => false,
        }
    }
}

} // verus!
