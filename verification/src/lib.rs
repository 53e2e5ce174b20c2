//! Printf-style (`%`) string interpolation.
//!
//! A template is read once, by [`CFormatString::from_str`] for text or by
//! [`CFormatBytes::parse_from_bytes`] for bytes, into literal runs and
//! specifiers. Formatting walks the parts, binds each specifier to its
//! argument by name or by position, and renders the value that the host
//! resolved for it.
//!
//! The library holds no values of the host. A formatting call takes the
//! shape of the argument object ([`Arguments`]) and the values resolved so
//! far ([`Value`]); where a specifier has no value yet, the call answers
//! [`Outcome::Pending`] with the specifier and the place of its argument, and
//! the host calls again with that value added:
//!
//! ```text
//! let template = CFormatString::from_str("%-5s|%*d")?;
//! let mut values = Vec::new();
//! loop {
//!     match template.format(&shape, &values) {
//!         Outcome::Finished(text) => return Ok(text),
//!         Outcome::Failed(error) => return Err(error),
//!         Outcome::Pending(bound) => values.push(resolve(&bound)),
//!     }
//! }
//! ```
//!
//! The grammar is stated in [`grammar`], the layout of rendered values in
//! [`layout`], the binding rules in [`binder`]; [`laws`] holds what follows
//! from them.

pub mod binder;
pub mod convert;
pub mod cursor;
pub mod error;
pub mod grammar;
pub mod laws;
pub mod layout;
pub mod number;
pub mod parser;
pub mod render;
pub mod specifier;
pub mod template;
pub mod text;
pub mod value;

pub use binder::{Arguments, Bound, Element, Outcome, Source};
pub use convert::Conversion;
pub use error::{CFormatError, CFormatErrorType, FormatError, HostError, ParsingError};
pub use number::{BigNumber, Sign};
pub use specifier::{
    CConversionFlags, CFloatType, CFormatCase, CFormatPart, CFormatPreconversor, CFormatQuantity,
    CFormatSpec, CFormatType, CNumberType,
};
pub use template::{CFormatBytes, CFormatString};
pub use value::{FloatValue, Kind, Value};
