//! Parsed templates: the ordered parts of a text template and of a byte
//! template.

use vstd::prelude::*;
use vstd::string::StringExecFns;
use crate::binder::{elements_of, outcome, walk, Arguments, Outcome, OutcomeView};
use crate::convert::{bytes_of, text_of};
use crate::cursor::ParseIter;
use crate::error::{CFormatError, FormatError, HostError};
use crate::specifier::SpecView;
use crate::value::Value;
use crate::grammar::{parts_from, template_parts};
use crate::parser::parse;
use crate::specifier::{parts_view, CFormatPart, PartView};
use crate::text::{bytes_as_chars, literal_bytes, literal_to_bytes};

verus! {

/// A parsed template whose output is text.
#[derive(Debug, PartialEq, Eq, Clone)]
pub struct CFormatString {
    pub parts: Vec<(usize, CFormatPart)>,
}

/// A parsed template whose output is a byte string.
#[derive(Debug, PartialEq, Eq, Clone)]
pub struct CFormatBytes {
    pub parts: Vec<(usize, CFormatPart)>,
}

impl View for CFormatString {
    type V = Seq<(usize, PartView)>;

    open spec fn view(&self) -> Seq<(usize, PartView)> {
        parts_view(self.parts@)
    }
}

impl View for CFormatBytes {
    type V = Seq<(usize, PartView)>;

    open spec fn view(&self) -> Seq<(usize, PartView)> {
        parts_view(self.parts@)
    }
}

impl View for Outcome<String> {
    type V = OutcomeView<char>;

    open spec fn view(&self) -> OutcomeView<char> {
        match *self {
            Outcome::Finished(s) => OutcomeView::Finished(s@),
            Outcome::Failed(e) => OutcomeView::Failed(e),
            Outcome::Pending(b) => OutcomeView::Pending(b.spec@, b.source@),
        }
    }
}

impl View for Outcome<Vec<u8>> {
    type V = OutcomeView<u8>;

    open spec fn view(&self) -> OutcomeView<u8> {
        match *self {
            Outcome::Finished(v) => OutcomeView::Finished(v@),
            Outcome::Failed(e) => OutcomeView::Failed(e),
            Outcome::Pending(b) => OutcomeView::Pending(b.spec@, b.source@),
        }
    }
}

/// How a text template renders one value.
pub open spec fn text_render() -> spec_fn(SpecView, Value) -> Result<Seq<char>, FormatError> {
    |spec: SpecView, value: Value| text_of(spec, value)
}

/// How a text template renders a literal: as it is.
pub open spec fn text_literal() -> spec_fn(Seq<char>) -> Seq<char> {
    |text: Seq<char>| text
}

/// How a byte template renders one value.
pub open spec fn bytes_render() -> spec_fn(SpecView, Value) -> Result<Seq<u8>, FormatError> {
    |spec: SpecView, value: Value| bytes_of(spec, value)
}

/// How a byte template renders a literal: each character that stands for a
/// byte as that byte.
pub open spec fn bytes_literal() -> spec_fn(Seq<char>) -> Seq<u8> {
    |text: Seq<char>| literal_bytes(text)
}

/// What formatting a text template gives.
pub open spec fn text_outcome(
    parts: Seq<(usize, PartView)>,
    args: Arguments,
    values: Seq<Result<Value, HostError>>,
) -> OutcomeView<char> {
    outcome(parts, args, values, text_render(), text_literal())
}

/// What formatting a byte template gives.
pub open spec fn bytes_outcome(
    parts: Seq<(usize, PartView)>,
    args: Arguments,
    values: Seq<Result<Value, HostError>>,
) -> OutcomeView<u8> {
    outcome(parts, args, values, bytes_render(), bytes_literal())
}

impl CFormatString {
    /// Formats the template. `args` is the shape of the argument object and
    /// `values` holds the values of the specifiers as the host resolved them,
    /// in the order of the specifiers. Where `values` ends before the
    /// specifiers do, the result names the next specifier and its argument.
    /// The template itself is left as it was: a `*` is resolved anew in each
    /// call.
    pub fn format(&self, args: &Arguments, values: &Vec<Result<Value, HostError>>) -> (r: Outcome<
        String,
    >)
        ensures
            r@ == text_outcome(self@, *args, values@),
    {
        let (by_name, leftover_allowed) = match args.check(&self.parts) {
            Ok(mode) => mode,
            Err(e) => {
                return Outcome::Failed(e);
            },
        };
        let ghost parts = self@;
        let ghost elements = elements_of(*args);
        let mut final_string = String::new();
        let mut tuple_index: usize = 0;
        let mut used: usize = 0;
        let mut i: usize = 0;
        while i < self.parts.len()
            invariant
                i <= self.parts.len(),
                parts == parts_view(self.parts@),
                elements == elements_of(*args),
                tuple_index <= elements.len() || tuple_index == 0,
                used <= values.len(),
                text_outcome(parts, *args, values@) == walk(
                    parts,
                    i as int,
                    elements,
                    tuple_index as int,
                    values@,
                    used as int,
                    final_string@,
                    by_name,
                    leftover_allowed,
                    text_render(),
                    text_literal(),
                ),
            decreases self.parts.len() - i,
        {
            assert(parts[i as int].1 == self.parts@[i as int].1@);
            match &self.parts[i].1 {
                CFormatPart::Spec(format_spec) => {
                    let (bound, next) = match args.bind(format_spec, tuple_index, by_name) {
                        Ok(bound) => bound,
                        Err(e) => {
                            return Outcome::Failed(e);
                        },
                    };
                    if used >= values.len() {
                        return Outcome::Pending(bound);
                    }
                    let result_string = match &values[used] {
                        Ok(value) => match bound.spec.format(value) {
                            Ok(s) => s,
                            Err(e) => {
                                return Outcome::Failed(e);
                            },
                        },
                        Err(e) => {
                            return Outcome::Failed(FormatError::Host(e.copy()));
                        },
                    };
                    final_string.append(result_string.as_str());
                    tuple_index = next;
                    used = used + 1;
                },
                CFormatPart::Literal(literal) => {
                    final_string.append(literal.as_str());
                },
            }
            i = i + 1;
        }

        // check that all arguments were converted
        if !leftover_allowed && tuple_index < args.count() {
            return Outcome::Failed(FormatError::NotAllArgumentsConverted);
        }
        Outcome::Finished(final_string)
    }

    /// Reads a template from the cursor to the end of its text.
    pub fn parse(iter: &mut ParseIter) -> (r: Result<CFormatString, CFormatError>)
        ensures
            final(iter).text() == old(iter).text(),
            final(iter).position() == parts_from(
                old(iter).text(),
                old(iter).position(),
                Seq::empty(),
                Seq::empty(),
                0,
            ).1,
            match parts_from(
                old(iter).text(),
                old(iter).position(),
                Seq::empty(),
                Seq::empty(),
                0,
            ).0 {
                Ok(parts) => r matches Ok(t) && t@ == parts,
                Err(e) => r matches Err(x) && x.typ == e.0 && x.index == e.1,
            },
    {
        match parse(iter) {
            Ok(parts) => Ok(CFormatString { parts }),
            Err(err) => Err(CFormatError { typ: err.0, index: err.1 }),
        }
    }

    /// Reads a template from a text, one character per Unicode scalar value.
    pub fn from_str(text: &str) -> (r: Result<CFormatString, CFormatError>)
        ensures
            match template_parts(text@) {
                Ok(parts) => r matches Ok(t) && t@ == parts,
                Err(e) => r matches Err(x) && x.typ == e.0 && x.index == e.1,
            },
    {
        let mut iter = ParseIter::from_text(text);
        CFormatString::parse(&mut iter)
    }
}

impl std::str::FromStr for CFormatString {
    type Err = CFormatError;

    /// Reads a template from a text; see [`CFormatString::from_str`].
    fn from_str(text: &str) -> (r: Result<CFormatString, CFormatError>)
        ensures
            match template_parts(text@) {
                Ok(parts) => r matches Ok(t) && t@ == parts,
                Err(e) => r matches Err(x) && x.typ == e.0 && x.index == e.1,
            },
    {
        CFormatString::from_str(text)
    }
}

impl CFormatBytes {
    /// Formats the template. `args` is the shape of the argument object and
    /// `values` holds the values of the specifiers as the host resolved them,
    /// in the order of the specifiers. Where `values` ends before the
    /// specifiers do, the result names the next specifier and its argument.
    /// The template itself is left as it was: a `*` is resolved anew in each
    /// call.
    pub fn format(&self, args: &Arguments, values: &Vec<Result<Value, HostError>>) -> (r: Outcome<
        Vec<u8>,
    >)
        ensures
            r@ == bytes_outcome(self@, *args, values@),
    {
        let (by_name, leftover_allowed) = match args.check(&self.parts) {
            Ok(mode) => mode,
            Err(e) => {
                return Outcome::Failed(e);
            },
        };
        let ghost parts = self@;
        let ghost elements = elements_of(*args);
        let mut final_bytes: Vec<u8> = Vec::new();
        let mut tuple_index: usize = 0;
        let mut used: usize = 0;
        let mut i: usize = 0;
        while i < self.parts.len()
            invariant
                i <= self.parts.len(),
                parts == parts_view(self.parts@),
                elements == elements_of(*args),
                tuple_index <= elements.len() || tuple_index == 0,
                used <= values.len(),
                bytes_outcome(parts, *args, values@) == walk(
                    parts,
                    i as int,
                    elements,
                    tuple_index as int,
                    values@,
                    used as int,
                    final_bytes@,
                    by_name,
                    leftover_allowed,
                    bytes_render(),
                    bytes_literal(),
                ),
            decreases self.parts.len() - i,
        {
            assert(parts[i as int].1 == self.parts@[i as int].1@);
            let mut result_bytes: Vec<u8> = match &self.parts[i].1 {
                CFormatPart::Spec(format_spec) => {
                    let (bound, next) = match args.bind(format_spec, tuple_index, by_name) {
                        Ok(bound) => bound,
                        Err(e) => {
                            return Outcome::Failed(e);
                        },
                    };
                    if used >= values.len() {
                        return Outcome::Pending(bound);
                    }
                    let rendered = match &values[used] {
                        Ok(value) => match bound.spec.bytes_format(value) {
                            Ok(v) => v,
                            Err(e) => {
                                return Outcome::Failed(e);
                            },
                        },
                        Err(e) => {
                            return Outcome::Failed(FormatError::Host(e.copy()));
                        },
                    };
                    tuple_index = next;
                    used = used + 1;
                    rendered
                },
                CFormatPart::Literal(literal) => literal_to_bytes(literal.as_str()),
            };
            final_bytes.append(&mut result_bytes);
            i = i + 1;
        }

        // check that all arguments were converted
        if !leftover_allowed && tuple_index < args.count() {
            return Outcome::Failed(FormatError::NotAllArgumentsConverted);
        }
        Outcome::Finished(final_bytes)
    }

    /// Reads a template from the cursor to the end of its text.
    pub fn parse(iter: &mut ParseIter) -> (r: Result<CFormatBytes, CFormatError>)
        ensures
            final(iter).text() == old(iter).text(),
            final(iter).position() == parts_from(
                old(iter).text(),
                old(iter).position(),
                Seq::empty(),
                Seq::empty(),
                0,
            ).1,
            match parts_from(
                old(iter).text(),
                old(iter).position(),
                Seq::empty(),
                Seq::empty(),
                0,
            ).0 {
                Ok(parts) => r matches Ok(t) && t@ == parts,
                Err(e) => r matches Err(x) && x.typ == e.0 && x.index == e.1,
            },
    {
        match parse(iter) {
            Ok(parts) => Ok(CFormatBytes { parts }),
            Err(err) => Err(CFormatError { typ: err.0, index: err.1 }),
        }
    }

    /// Reads a template from a byte string, one character per byte.
    pub fn parse_from_bytes(bytes: &[u8]) -> (r: Result<CFormatBytes, CFormatError>)
        ensures
            match template_parts(bytes_as_chars(bytes@)) {
                Ok(parts) => r matches Ok(t) && t@ == parts,
                Err(e) => r matches Err(x) && x.typ == e.0 && x.index == e.1,
            },
    {
        let mut iter = ParseIter::from_bytes(bytes);
        CFormatBytes::parse(&mut iter)
    }
}

} // verus!
