//! The argument model: what the host tells the library of one value, as
//! plain data.

use vstd::prelude::*;
use crate::error::HostError;
use crate::number::BigNumber;

verus! {

/// What kind of value an argument is.
#[derive(Debug, PartialEq, Eq)]
pub enum Kind {
    /// An integer, with its value.
    Integer(BigNumber),
    /// A float, with its truncation toward zero, or the host's error where it
    /// has none (an infinity, a NaN).
    Float(Result<BigNumber, HostError>),
    /// A text, with its characters.
    Text(String),
    /// Anything else.
    Other,
}

/// A value as a float, as far as the host writes it: whether its sign bit is
/// clear, and the digits of its magnitude with as many digits after the
/// decimal point as the specifier that renders it asks for. For the exponent
/// style the digits are those of the magnitude scaled to one digit in front
/// of the decimal point, and `exponent` is the power of ten that was scaled
/// away.
#[derive(Debug, PartialEq, Eq, Clone)]
pub struct FloatValue {
    pub sign_positive: bool,
    pub magnitude: String,
    pub exponent: Option<i32>,
}

/// One argument as the host resolved it for one specifier: its kind, the
/// name of its type, and the host's conversions of it. A host that converts
/// on demand fills in what the specifier reads, which
/// [`CFormatSpec::conversion`](crate::specifier::CFormatSpec::conversion)
/// names, and leaves an error in the other conversions.
#[derive(Debug, PartialEq, Eq)]
pub struct Value {
    pub kind: Kind,
    /// The name of the value's type, for error messages.
    pub class_name: String,
    /// The display form (`%s`).
    pub display: Result<String, HostError>,
    /// The debug form (`%r`, `%a`).
    pub repr: Result<String, HostError>,
    /// The bytes of the value: its buffer, else what its byte conversion gave.
    pub bytes: Result<Vec<u8>, HostError>,
    /// The value as a float; `None` where it is no number.
    pub float: Result<Option<FloatValue>, HostError>,
}

} // verus!
