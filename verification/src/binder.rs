//! The binder: which argument each specifier takes, by name or by position,
//! and what a `*` width or precision resolves to.

use vstd::prelude::*;
use crate::error::{FormatError, HostError};
use crate::number::BigNumber;
use crate::specifier::{CFormatPart, CFormatQuantity, CFormatSpec, PartView, SpecView, parts_view};
use crate::value::Value;

verus! {

/// A positional argument as the binder sees it: an integer, which a `*` can
/// take, or anything else.
#[derive(Debug, PartialEq, Eq)]
pub enum Element {
    Integer(BigNumber),
    Other,
}

/// The shape of the argument object of one formatting call.
#[derive(Debug, PartialEq, Eq)]
pub enum Arguments {
    /// A mapping, whose entries the host looks up by key.
    Mapping,
    /// A sequence, with its elements in order.
    Sequence(Vec<Element>),
    /// Any other object: it stands for the sequence that holds it alone.
    Single(Element),
}

/// Where the value of a specifier comes from.
#[derive(Debug, PartialEq, Eq)]
pub enum Source {
    /// The entry of the mapping under this key.
    Key(String),
    /// The positional argument at this index.
    Index(usize),
    /// What the sequence of the positional arguments gives under this key: a
    /// keyed specifier in a template that binds by position. A host whose
    /// sequences are indexed by number fails this lookup.
    KeyInSequence(String),
}

/// The mathematical content of a [`Source`].
pub enum SourceView {
    Key(Seq<char>),
    Index(usize),
    KeyInSequence(Seq<char>),
}

impl View for Source {
    type V = SourceView;

    open spec fn view(&self) -> SourceView {
        match *self {
            Source::Key(k) => SourceView::Key(k@),
            Source::Index(i) => SourceView::Index(i),
            Source::KeyInSequence(k) => SourceView::KeyInSequence(k@),
        }
    }
}

/// A specifier bound to its argument: the specifier with its `*` quantities
/// resolved, and where its value comes from.
#[derive(Debug, PartialEq, Eq)]
pub struct Bound {
    pub spec: CFormatSpec,
    pub source: Source,
}

/// How far one formatting call got with the values it was given.
#[derive(Debug, PartialEq, Eq)]
pub enum Outcome<T> {
    /// Every specifier was rendered: the output.
    Finished(T),
    /// The call failed.
    Failed(FormatError),
    /// Every value given was used and this specifier has none yet. The host
    /// resolves its value and calls again with that value added at the end.
    Pending(Bound),
}

/// The mathematical content of an [`Outcome`].
pub enum OutcomeView<A> {
    Finished(Seq<A>),
    Failed(FormatError),
    Pending(SpecView, SourceView),
}

// ------------------------------------------------------------------ the model

/// The positional arguments that an argument object stands for: a sequence
/// is itself, anything else is the one element of a sequence.
pub open spec fn elements_of(args: Arguments) -> Seq<Element> {
    match args {
        Arguments::Mapping => seq![Element::Other],
        Arguments::Sequence(v) => v@,
        Arguments::Single(e) => seq![e],
    }
}

/// Whether a part is a specifier.
pub open spec fn is_specifier(part: PartView) -> bool {
    part is Spec
}

/// Whether a part is a specifier that names a key.
pub open spec fn has_key(part: PartView) -> bool {
    part matches PartView::Spec(s) && s.mapping_key is Some
}

/// Whether some part is a specifier.
pub open spec fn has_specifier(parts: Seq<(usize, PartView)>) -> bool {
    exists|i: int| 0 <= i < parts.len() && is_specifier(#[trigger] parts[i].1)
}

/// Whether some specifier names a key.
pub open spec fn has_any_key(parts: Seq<(usize, PartView)>) -> bool {
    exists|i: int| 0 <= i < parts.len() && has_key(#[trigger] parts[i].1)
}

/// Whether every specifier names a key.
pub open spec fn all_have_key(parts: Seq<(usize, PartView)>) -> bool {
    forall|i: int|
        0 <= i < parts.len() && is_specifier(#[trigger] parts[i].1) ==> has_key(parts[i].1)
}

/// Whether the template binds by name: some specifier names a key and every
/// specifier does.
pub open spec fn mapping_required(parts: Seq<(usize, PartView)>) -> bool {
    has_any_key(parts) && all_have_key(parts)
}

/// What is wrong with the argument object before any part is looked at: a
/// template that binds by name needs a mapping, and a template without
/// specifiers takes an empty sequence or a mapping only.
pub open spec fn refusal(parts: Seq<(usize, PartView)>, args: Arguments) -> Option<FormatError> {
    if mapping_required(parts) {
        if args is Mapping {
            None
        } else {
            Some(FormatError::MappingRequired)
        }
    } else if !has_specifier(parts) && !(args matches Arguments::Sequence(v) && v@.len() == 0)
        && !(args is Mapping) {
        Some(FormatError::NotAllArgumentsConverted)
    } else {
        None
    }
}

/// Whether positional arguments may be left over at the end.
pub open spec fn exempt(parts: Seq<(usize, PartView)>, args: Arguments) -> bool {
    mapping_required(parts) || args is Mapping
}

/// A signed size as the unsigned size with the same bits.
pub open spec fn as_amount(v: int) -> usize {
    if v >= 0 {
        v as usize
    } else {
        (usize::MAX + 1 + v) as usize
    }
}

/// The amount that a `*` takes from a positional argument.
pub open spec fn star_amount(e: Element) -> Result<usize, FormatError> {
    match e {
        Element::Integer(n) => if isize::MIN <= n@ <= isize::MAX {
            Ok(as_amount(n@))
        } else {
            Err(FormatError::StarTooBig)
        },
        Element::Other => Err(FormatError::StarWantsInt),
    }
}

/// A width or precision with its `*` resolved from the argument at the
/// cursor, and the cursor after it.
pub open spec fn resolved_quantity(
    q: Option<CFormatQuantity>,
    elements: Seq<Element>,
    cursor: int,
) -> Result<(Option<CFormatQuantity>, int), FormatError> {
    if q == Some(CFormatQuantity::FromValuesTuple) {
        if 0 <= cursor < elements.len() {
            match star_amount(elements[cursor]) {
                Ok(amount) => Ok((Some(CFormatQuantity::Amount(amount)), cursor + 1)),
                Err(e) => Err(e),
            }
        } else {
            Err(FormatError::NotEnoughArguments)
        }
    } else {
        Ok((q, cursor))
    }
}

/// Where a keyed specifier looks its key up: in the mapping when the
/// template binds by name, else in the sequence of the positional arguments.
pub open spec fn key_source(key: Seq<char>, by_name: bool) -> SourceView {
    if by_name {
        SourceView::Key(key)
    } else {
        SourceView::KeyInSequence(key)
    }
}

/// One specifier bound at the cursor. A keyed specifier takes what is found
/// under its key and leaves the cursor and its own quantities alone. Any
/// other resolves its width, then its precision, then takes the next
/// positional argument.
pub open spec fn bound_at(
    spec: SpecView,
    elements: Seq<Element>,
    cursor: int,
    by_name: bool,
) -> Result<(SpecView, SourceView, int), FormatError> {
    match spec.mapping_key {
        Some(key) => Ok((spec, key_source(key, by_name), cursor)),
        None => match resolved_quantity(spec.min_field_width, elements, cursor) {
            Err(e) => Err(e),
            Ok((width, after_width)) => match resolved_quantity(
                spec.precision,
                elements,
                after_width,
            ) {
                Err(e) => Err(e),
                Ok((precision, after_precision)) => if 0 <= after_precision < elements.len() {
                    Ok(
                        (
                            SpecView { min_field_width: width, precision, ..spec },
                            SourceView::Index(after_precision as usize),
                            after_precision + 1,
                        ),
                    )
                } else {
                    Err(FormatError::NotEnoughArguments)
                },
            },
        },
    }
}

/// The walk over the parts from part `i` on: literals pass through, each
/// specifier is bound at the cursor and rendered from the next value given.
/// The walk stops at the first failure, or at the first specifier for which
/// no value is given yet. At the end, positional arguments left over fail
/// the call unless they are exempt.
pub open spec fn walk<A>(
    parts: Seq<(usize, PartView)>,
    i: int,
    elements: Seq<Element>,
    cursor: int,
    values: Seq<Result<Value, HostError>>,
    used: int,
    output: Seq<A>,
    by_name: bool,
    leftover_allowed: bool,
    render: spec_fn(SpecView, Value) -> Result<Seq<A>, FormatError>,
    literal: spec_fn(Seq<char>) -> Seq<A>,
) -> OutcomeView<A>
    decreases parts.len() - i,
{
    if i < 0 || i >= parts.len() {
        if !leftover_allowed && cursor < elements.len() {
            OutcomeView::Failed(FormatError::NotAllArgumentsConverted)
        } else {
            OutcomeView::Finished(output)
        }
    } else {
        match parts[i].1 {
            PartView::Literal(text) => walk(
                parts,
                i + 1,
                elements,
                cursor,
                values,
                used,
                output + literal(text),
                by_name,
                leftover_allowed,
                render,
                literal,
            ),
            PartView::Spec(spec) => match bound_at(spec, elements, cursor, by_name) {
                Err(e) => OutcomeView::Failed(e),
                Ok((bound, source, next)) => if used < 0 || used >= values.len() {
                    OutcomeView::Pending(bound, source)
                } else {
                    match values[used] {
                        Err(e) => OutcomeView::Failed(FormatError::Host(e)),
                        Ok(value) => match render(bound, value) {
                            Err(e) => OutcomeView::Failed(e),
                            Ok(rendered) => walk(
                                parts,
                                i + 1,
                                elements,
                                next,
                                values,
                                used + 1,
                                output + rendered,
                                by_name,
                                leftover_allowed,
                                render,
                                literal,
                            ),
                        },
                    }
                },
            },
        }
    }
}

/// What one formatting call gives: the refusal of the argument object, else
/// the walk over all parts.
pub open spec fn outcome<A>(
    parts: Seq<(usize, PartView)>,
    args: Arguments,
    values: Seq<Result<Value, HostError>>,
    render: spec_fn(SpecView, Value) -> Result<Seq<A>, FormatError>,
    literal: spec_fn(Seq<char>) -> Seq<A>,
) -> OutcomeView<A> {
    match refusal(parts, args) {
        Some(e) => OutcomeView::Failed(e),
        None => walk(
            parts,
            0,
            elements_of(args),
            0,
            values,
            0,
            Seq::empty(),
            mapping_required(parts),
            exempt(parts, args),
            render,
            literal,
        ),
    }
}

// ------------------------------------------------------------------- the code

impl CFormatSpec {
    /// A copy of the specifier.
    pub fn copy(&self) -> (r: CFormatSpec)
        ensures
            r == *self,
    {
        CFormatSpec {
            mapping_key: match &self.mapping_key {
                Some(key) => Some(key.clone()),
                None => None,
            },
            flags: self.flags,
            min_field_width: self.min_field_width,
            precision: self.precision,
            format_type: self.format_type,
            format_char: self.format_char,
        }
    }
}

impl Arguments {
    /// How many positional arguments the object stands for.
    pub fn count(&self) -> (n: usize)
        ensures
            n == elements_of(*self).len(),
    {
        match self {
            Arguments::Sequence(v) => v.len(),
            _ => 1,
        }
    }

    /// The amount that a `*` takes from the positional argument at `index`.
    pub fn star(&self, index: usize) -> (r: Result<usize, FormatError>)
        ensures
            r == (if index < elements_of(*self).len() {
                star_amount(elements_of(*self)[index as int])
            } else {
                Err(FormatError::NotEnoughArguments)
            }),
    {
        let element = match self {
            Arguments::Sequence(v) => {
                if index < v.len() {
                    &v[index]
                } else {
                    return Err(FormatError::NotEnoughArguments);
                }
            },
            Arguments::Single(e) => {
                if index == 0 {
                    e
                } else {
                    return Err(FormatError::NotEnoughArguments);
                }
            },
            Arguments::Mapping => {
                if index == 0 {
                    return Err(FormatError::StarWantsInt);
                } else {
                    return Err(FormatError::NotEnoughArguments);
                }
            },
        };
        match element {
            Element::Integer(n) => match n.to_isize() {
                Some(i) => if i >= 0 {
                    Ok(i as usize)
                } else {
                    Ok(usize::MAX - ((-(i + 1)) as usize))
                },
                None => Err(FormatError::StarTooBig),
            },
            Element::Other => Err(FormatError::StarWantsInt),
        }
    }

    /// Resolves a width or precision at the cursor: a `*` takes the
    /// positional argument there, which must be an integer, and moves the
    /// cursor on; anything else stays as it is.
    pub fn try_update_quantity_from_tuple(
        &self,
        q: Option<CFormatQuantity>,
        tuple_index: usize,
    ) -> (r: Result<(Option<CFormatQuantity>, usize), FormatError>)
        ensures
            match resolved_quantity(q, elements_of(*self), tuple_index as int) {
                Ok((quantity, next)) => r matches Ok((resolved, n)) && resolved == quantity && n
                    == next,
                Err(e) => r matches Err(x) && x == e,
            },
    {
        match q {
            Some(CFormatQuantity::FromValuesTuple) => {
                if tuple_index < self.count() {
                    match self.star(tuple_index) {
                        Ok(amount) => Ok((Some(CFormatQuantity::Amount(amount)), tuple_index + 1)),
                        Err(e) => Err(e),
                    }
                } else {
                    Err(FormatError::NotEnoughArguments)
                }
            },
            _ => Ok((q, tuple_index)),
        }
    }

    /// Binds one specifier at the cursor: the specifier with its `*`
    /// quantities resolved, where its value comes from, and the cursor after
    /// it.
    pub fn bind(&self, spec: &CFormatSpec, tuple_index: usize, by_name: bool) -> (r: Result<
        (Bound, usize),
        FormatError,
    >)
        ensures
            match bound_at(spec@, elements_of(*self), tuple_index as int, by_name) {
                Ok((bound, source, next)) => r matches Ok((b, n)) && b.spec@ == bound && b.source@
                    == source && n == next,
                Err(e) => r matches Err(x) && x == e,
            },
    {
        match &spec.mapping_key {
            Some(key) => {
                let source = if by_name {
                    Source::Key(key.clone())
                } else {
                    Source::KeyInSequence(key.clone())
                };
                Ok((Bound { spec: spec.copy(), source }, tuple_index))
            },
            None => {
                let (width, after_width) = match self.try_update_quantity_from_tuple(
                    spec.min_field_width,
                    tuple_index,
                ) {
                    Ok(resolved) => resolved,
                    Err(e) => {
                        return Err(e);
                    },
                };
                let (precision, after_precision) = match self.try_update_quantity_from_tuple(
                    spec.precision,
                    after_width,
                ) {
                    Ok(resolved) => resolved,
                    Err(e) => {
                        return Err(e);
                    },
                };
                if after_precision < self.count() {
                    let mut bound = spec.copy();
                    bound.min_field_width = width;
                    bound.precision = precision;
                    Ok(
                        (
                            Bound { spec: bound, source: Source::Index(after_precision) },
                            after_precision + 1,
                        ),
                    )
                } else {
                    Err(FormatError::NotEnoughArguments)
                }
            },
        }
    }

    /// Looks at the argument object before any part is rendered. A template
    /// that binds by name needs a mapping, and a template without specifiers
    /// takes an empty sequence or a mapping only. Where the object is taken,
    /// the result says whether the template binds by name, and whether
    /// positional arguments may be left over at the end.
    pub fn check(&self, parts: &Vec<(usize, CFormatPart)>) -> (r: Result<(bool, bool), FormatError>)
        ensures
            r == (match refusal(parts_view(parts@), *self) {
                Some(e) => Err(e),
                None => Ok(
                    (mapping_required(parts_view(parts@)), exempt(parts_view(parts@), *self)),
                ),
            }),
    {
        let ghost view = parts_view(parts@);
        let mut any_specifier = false;
        let mut any_key = false;
        let mut all_keys = true;
        let mut i: usize = 0;
        while i < parts.len()
            invariant
                i <= parts.len(),
                view == parts_view(parts@),
                any_specifier == (exists|j: int| 0 <= j < i && is_specifier(#[trigger] view[j].1)),
                any_key == (exists|j: int| 0 <= j < i && has_key(#[trigger] view[j].1)),
                all_keys == (forall|j: int|
                    0 <= j < i && is_specifier(#[trigger] view[j].1) ==> has_key(view[j].1)),
            decreases parts.len() - i,
        {
            let part = &parts[i].1;
            assert(view[i as int].1 == part@);
            if part.is_specifier() {
                any_specifier = true;
                if !part.has_key() {
                    all_keys = false;
                }
            }
            if part.has_key() {
                any_key = true;
            }
            i = i + 1;
        }
        let is_mapping = matches!(self, Arguments::Mapping);
        if any_key && all_keys {
            if is_mapping {
                Ok((true, true))
            } else {
                Err(FormatError::MappingRequired)
            }
        } else {
            // check for only literal parts, in which case only dict or empty tuple is allowed
            let is_empty_sequence = match self {
                Arguments::Sequence(v) => v.len() == 0,
                _ => false,
            };
            if !any_specifier && !is_empty_sequence && !is_mapping {
                Err(FormatError::NotAllArgumentsConverted)
            } else {
                Ok((false, is_mapping))
            }
        }
    }
}

} // verus!
