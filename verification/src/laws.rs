//! Laws that hold of the grammar, the renderers and the binder, each proved
//! from the definitions that the contracts of the library use.

use vstd::prelude::*;
use crate::binder::{
    bound_at, elements_of, exempt, has_any_key, has_specifier, mapping_required, outcome, refusal,
    walk, Arguments, Element, OutcomeView,
};
use crate::convert::{agree, bytes_of, conversion_of, text_of};
use crate::error::{FormatError, HostError, ParsingError};
use crate::grammar::{
    all_well_formed, flushed, in_text, lemma_parts_well_formed, parts_from, template_parts,
    well_formed,
};
use crate::layout::{
    fixed_amount, magnitude_text, number_text, padded, padding, radix_prefix, sign_of, signed_text,
    string_text, truncated,
};
use crate::specifier::{CConversionFlags, CFormatQuantity, PartView, SpecView};
use crate::template::{
    bytes_literal, bytes_outcome, bytes_render, text_literal, text_outcome, text_render,
};
use crate::text::{bytes_as_chars, lemma_literal_bytes_of_bytes, literal_bytes, repeated};
use crate::value::Value;

verus! {

/// Whether a text holds no `%`.
pub open spec fn is_plain(source: Seq<char>) -> bool {
    forall|i: int| 0 <= i < source.len() ==> source[i] != '%'
}

/// Whether an argument object is a mapping or an empty sequence.
pub open spec fn takes_no_value(args: Arguments) -> bool {
    args is Mapping || (args matches Arguments::Sequence(v) && v@.len() == 0)
}

/// From any position on, a text without `%` only adds to the pending literal.
pub proof fn lemma_plain_parts(
    s: Seq<char>,
    pos: int,
    parts: Seq<(usize, PartView)>,
    literal: Seq<char>,
    literal_start: usize,
)
    requires
        is_plain(s),
        0 <= pos <= s.len(),
    ensures
        parts_from(s, pos, parts, literal, literal_start) == (
            Ok::<_, ParsingError>(
                flushed(parts, literal + s.subrange(pos, s.len() as int), literal_start),
            ),
            s.len() as int,
        ),
    decreases s.len() - pos,
{
    if pos < s.len() {
        lemma_plain_parts(s, pos + 1, parts, literal.push(s[pos]), literal_start);
        assert(literal.push(s[pos]) + s.subrange(pos + 1, s.len() as int) =~= literal + s.subrange(
            pos,
            s.len() as int,
        ));
    } else {
        assert(literal + s.subrange(pos, s.len() as int) =~= literal);
    }
}

/// A template without `%` is its own text as one literal, or nothing at all
/// where the text is empty.
pub proof fn lemma_plain_template(source: Seq<char>)
    requires
        is_plain(source),
    ensures
        template_parts(source) == Ok::<_, ParsingError>(
            flushed(Seq::empty(), source, 0),
        ),
{
    lemma_plain_parts(source, 0, Seq::empty(), Seq::empty(), 0);
    assert(Seq::<char>::empty() + source.subrange(0, source.len() as int) =~= source);
}

/// The walk over a template that is one literal or nothing gives the
/// literal, where no positional argument is left over.
proof fn lemma_walk_plain<A>(
    source: Seq<char>,
    args: Arguments,
    values: Seq<Result<Value, HostError>>,
    render: spec_fn(SpecView, Value) -> Result<Seq<A>, FormatError>,
    literal: spec_fn(Seq<char>) -> Seq<A>,
)
    requires
        takes_no_value(args),
        literal(Seq::empty()) == Seq::<A>::empty(),
    ensures
        outcome(flushed(Seq::empty(), source, 0), args, values, render, literal)
            == OutcomeView::Finished(literal(source)),
{
    let parts = flushed(Seq::empty(), source, 0);
    assert(!has_specifier(parts));
    assert(!has_any_key(parts));
    assert(refusal(parts, args) is None);
    let elements = elements_of(args);
    let allowed = exempt(parts, args);
    let by_name = mapping_required(parts);
    assert(allowed || elements.len() == 0);
    if source.len() > 0 {
        assert(parts.len() == 1);
        assert(parts[0].1 == PartView::Literal(source));
        assert(Seq::<A>::empty() + literal(source) =~= literal(source));
        assert(walk(
            parts,
            1,
            elements,
            0,
            values,
            0,
            literal(source),
            by_name,
            allowed,
            render,
            literal,
        ) == OutcomeView::Finished(literal(source)));
        assert(walk(
            parts,
            0,
            elements,
            0,
            values,
            0,
            Seq::empty(),
            by_name,
            allowed,
            render,
            literal,
        ) == walk(
            parts,
            1,
            elements,
            0,
            values,
            0,
            Seq::empty() + literal(source),
            by_name,
            allowed,
            render,
            literal,
        ));
    } else {
        assert(source =~= Seq::<char>::empty());
        assert(parts.len() == 0);
    }
}

/// Round trip on literals, for text: a template that holds no `%` parses,
/// and with a mapping or an empty sequence it renders to exactly its source,
/// whatever values are given.
pub proof fn law_literal_round_trip(
    source: Seq<char>,
    args: Arguments,
    values: Seq<Result<Value, HostError>>,
)
    requires
        is_plain(source),
        takes_no_value(args),
    ensures
        template_parts(source) matches Ok(parts) && text_outcome(parts, args, values)
            == OutcomeView::Finished(source),
{
    lemma_plain_template(source);
    lemma_walk_plain(source, args, values, text_render(), text_literal());
}

/// Round trip on literals, for bytes: a byte template that holds no `%`
/// parses, and with a mapping or an empty sequence it renders to exactly its
/// source, whatever values are given.
pub proof fn law_literal_bytes_round_trip(
    source: Seq<u8>,
    args: Arguments,
    values: Seq<Result<Value, HostError>>,
)
    requires
        is_plain(bytes_as_chars(source)),
        takes_no_value(args),
    ensures
        template_parts(bytes_as_chars(source)) matches Ok(parts) && bytes_outcome(
            parts,
            args,
            values,
        ) == OutcomeView::Finished(source),
{
    let text = bytes_as_chars(source);
    lemma_plain_template(text);
    assert(literal_bytes(Seq::empty()) =~= Seq::<u8>::empty());
    lemma_walk_plain(text, args, values, bytes_render(), bytes_literal());
    lemma_literal_bytes_of_bytes(source);
}

/// How many of the parts from part `i` on are specifiers.
pub open spec fn specifiers_from(parts: Seq<(usize, PartView)>, i: int) -> nat
    decreases parts.len() - i,
{
    if i < 0 || i >= parts.len() {
        0
    } else if parts[i].1 is Spec {
        1 + specifiers_from(parts, i + 1)
    } else {
        specifiers_from(parts, i + 1)
    }
}

/// A walk that does not end on a pending specifier ends the same way when
/// more values are given.
pub proof fn lemma_walk_ignores_more_values<A>(
    parts: Seq<(usize, PartView)>,
    i: int,
    elements: Seq<Element>,
    cursor: int,
    values: Seq<Result<Value, HostError>>,
    more: Seq<Result<Value, HostError>>,
    used: int,
    output: Seq<A>,
    by_name: bool,
    leftover_allowed: bool,
    render: spec_fn(SpecView, Value) -> Result<Seq<A>, FormatError>,
    literal: spec_fn(Seq<char>) -> Seq<A>,
)
    requires
        0 <= used,
    ensures
        walk(
            parts,
            i,
            elements,
            cursor,
            values,
            used,
            output,
            by_name,
            leftover_allowed,
            render,
            literal,
        ) is Pending || walk(
            parts,
            i,
            elements,
            cursor,
            values + more,
            used,
            output,
            by_name,
            leftover_allowed,
            render,
            literal,
        ) == walk(
            parts,
            i,
            elements,
            cursor,
            values,
            used,
            output,
            by_name,
            leftover_allowed,
            render,
            literal,
        ),
    decreases parts.len() - i,
{
    if 0 <= i < parts.len() {
        match parts[i].1 {
            PartView::Literal(text) => {
                lemma_walk_ignores_more_values(
                    parts,
                    i + 1,
                    elements,
                    cursor,
                    values,
                    more,
                    used,
                    output + literal(text),
                    by_name,
                    leftover_allowed,
                    render,
                    literal,
                );
            },
            PartView::Spec(spec) => {
                match bound_at(spec, elements, cursor, by_name) {
                    Err(e) => {},
                    Ok((bound, source, next)) => {
                        if used < values.len() {
                            assert((values + more)[used] == values[used]);
                            match values[used] {
                                Err(e) => {},
                                Ok(value) => match render(bound, value) {
                                    Err(e) => {},
                                    Ok(rendered) => {
                                        lemma_walk_ignores_more_values(
                                            parts,
                                            i + 1,
                                            elements,
                                            next,
                                            values,
                                            more,
                                            used + 1,
                                            output + rendered,
                                            by_name,
                                            leftover_allowed,
                                            render,
                                            literal,
                                        );
                                    },
                                },
                            }
                        }
                    },
                }
            },
        }
    }
}

/// A walk ends on a pending specifier only while specifiers are left for
/// which no value is given.
pub proof fn lemma_walk_pending_bound<A>(
    parts: Seq<(usize, PartView)>,
    i: int,
    elements: Seq<Element>,
    cursor: int,
    values: Seq<Result<Value, HostError>>,
    used: int,
    output: Seq<A>,
    by_name: bool,
    leftover_allowed: bool,
    render: spec_fn(SpecView, Value) -> Result<Seq<A>, FormatError>,
    literal: spec_fn(Seq<char>) -> Seq<A>,
)
    requires
        0 <= used,
    ensures
        walk(
            parts,
            i,
            elements,
            cursor,
            values,
            used,
            output,
            by_name,
            leftover_allowed,
            render,
            literal,
        ) is Pending ==> values.len() < used + specifiers_from(parts, i),
    decreases parts.len() - i,
{
    if 0 <= i < parts.len() {
        match parts[i].1 {
            PartView::Literal(text) => {
                lemma_walk_pending_bound(
                    parts,
                    i + 1,
                    elements,
                    cursor,
                    values,
                    used,
                    output + literal(text),
                    by_name,
                    leftover_allowed,
                    render,
                    literal,
                );
            },
            PartView::Spec(spec) => {
                match bound_at(spec, elements, cursor, by_name) {
                    Err(e) => {},
                    Ok((bound, source, next)) => {
                        if used < values.len() {
                            match values[used] {
                                Err(e) => {},
                                Ok(value) => match render(bound, value) {
                                    Err(e) => {},
                                    Ok(rendered) => {
                                        lemma_walk_pending_bound(
                                            parts,
                                            i + 1,
                                            elements,
                                            next,
                                            values,
                                            used + 1,
                                            output + rendered,
                                            by_name,
                                            leftover_allowed,
                                            render,
                                            literal,
                                        );
                                    },
                                },
                            }
                        }
                    },
                }
            },
        }
    }
}

/// Values given beyond need change nothing: a call that finished or failed
/// gives the same result when it is made again with more values. This holds
/// of text and of byte templates.
pub proof fn law_more_values_change_nothing(
    parts: Seq<(usize, PartView)>,
    args: Arguments,
    values: Seq<Result<Value, HostError>>,
    more: Seq<Result<Value, HostError>>,
)
    ensures
        text_outcome(parts, args, values) is Pending || text_outcome(parts, args, values + more)
            == text_outcome(parts, args, values),
        bytes_outcome(parts, args, values) is Pending || bytes_outcome(parts, args, values + more)
            == bytes_outcome(parts, args, values),
{
    lemma_walk_ignores_more_values(
        parts,
        0,
        elements_of(args),
        0,
        values,
        more,
        0,
        Seq::<char>::empty(),
        mapping_required(parts),
        exempt(parts, args),
        text_render(),
        text_literal(),
    );
    lemma_walk_ignores_more_values(
        parts,
        0,
        elements_of(args),
        0,
        values,
        more,
        0,
        Seq::<u8>::empty(),
        mapping_required(parts),
        exempt(parts, args),
        bytes_render(),
        bytes_literal(),
    );
}

/// A call asks for a value only while it has fewer values than the template
/// has specifiers: a host that adds one value for each pending specifier
/// gets a result after at most as many calls as there are specifiers, and
/// one more.
pub proof fn law_pending_needs_a_value(
    parts: Seq<(usize, PartView)>,
    args: Arguments,
    values: Seq<Result<Value, HostError>>,
)
    ensures
        text_outcome(parts, args, values) is Pending ==> values.len() < specifiers_from(parts, 0),
        bytes_outcome(parts, args, values) is Pending ==> values.len() < specifiers_from(parts, 0),
{
    lemma_walk_pending_bound(
        parts,
        0,
        elements_of(args),
        0,
        values,
        0,
        Seq::<char>::empty(),
        mapping_required(parts),
        exempt(parts, args),
        text_render(),
        text_literal(),
    );
    lemma_walk_pending_bound(
        parts,
        0,
        elements_of(args),
        0,
        values,
        0,
        Seq::<u8>::empty(),
        mapping_required(parts),
        exempt(parts, args),
        bytes_render(),
        bytes_literal(),
    );
}

/// Every specifier of a template that parses is well formed: its conversion
/// is the one that its conversion character stands for, and a float
/// conversion has a precision.
pub proof fn law_template_well_formed(source: Seq<char>)
    ensures
        template_parts(source) matches Ok(parts) ==> all_well_formed(parts),
{
    lemma_parts_well_formed(source, 0, Seq::empty(), Seq::empty(), 0);
}

/// Binding keeps a specifier well formed, and changes nothing of it but a
/// width or a precision that was `*`.
pub proof fn law_binding_keeps_the_specifier(
    spec: SpecView,
    elements: Seq<Element>,
    cursor: int,
    by_name: bool,
)
    ensures
        bound_at(spec, elements, cursor, by_name) matches Ok((bound, source, next)) ==> {
            &&& bound.mapping_key == spec.mapping_key
            &&& bound.flags == spec.flags
            &&& bound.format_type == spec.format_type
            &&& bound.format_char == spec.format_char
            &&& spec.min_field_width != Some(CFormatQuantity::FromValuesTuple)
                ==> bound.min_field_width == spec.min_field_width
            &&& spec.precision != Some(CFormatQuantity::FromValuesTuple) ==> bound.precision
                == spec.precision
            &&& spec.mapping_key is None ==> bound.min_field_width != Some(
                CFormatQuantity::FromValuesTuple,
            ) && bound.precision != Some(CFormatQuantity::FromValuesTuple)
            &&& well_formed(spec) ==> well_formed(bound)
            &&& cursor <= next
        },
{
}

/// A specifier reads of a value only what its conversion names: two values
/// that agree in that render alike, in a text template and in a byte
/// template. A host may therefore resolve that one conversion and no other.
pub proof fn law_conversion_is_all_that_is_read(spec: SpecView, a: Value, b: Value)
    ensures
        agree(conversion_of(spec, false), a, b) ==> text_of(spec, a) == text_of(spec, b),
        agree(conversion_of(spec, true), a, b) ==> bytes_of(spec, a) == bytes_of(spec, b),
{
}

/// A doubled `%` never starts a specifier: it adds one `%` to the pending
/// literal, and reading goes on after it.
pub proof fn law_percent_escape(
    s: Seq<char>,
    pos: int,
    parts: Seq<(usize, PartView)>,
    literal: Seq<char>,
    literal_start: usize,
)
    requires
        in_text(s, pos),
        in_text(s, pos + 1),
        s[pos] == '%',
        s[pos + 1] == '%',
    ensures
        parts_from(s, pos, parts, literal, literal_start) == parts_from(
            s,
            pos + 2,
            parts,
            literal.push('%'),
            literal_start,
        ),
{
}

/// Width invariant: a content of `n` items under a fixed width `w` comes out
/// `max(n, w)` items long; the content stands at the left when left-adjusted
/// and at the right otherwise, and every other item is the fill.
pub proof fn law_width<T>(w: usize, left_adjust: bool, content: Seq<T>, fill: T)
    ensures
        ({
            let r = padded(Some(CFormatQuantity::Amount(w)), left_adjust, content, fill, 0);
            let n = content.len() as int;
            &&& r.len() == if n >= w {
                n
            } else {
                w as int
            }
            &&& left_adjust ==> r.subrange(0, n) == content && forall|i: int|
                n <= i < r.len() ==> r[i] == fill
            &&& !left_adjust ==> r.subrange(r.len() - n, r.len() as int) == content && forall|
                i: int,
            |
                0 <= i < r.len() - n ==> r[i] == fill
        }),
{
    let r = padded(Some(CFormatQuantity::Amount(w)), left_adjust, content, fill, 0);
    let n = content.len() as int;
    if left_adjust {
        assert(r.subrange(0, n) =~= content);
    } else {
        assert(r.subrange(r.len() - n, r.len() as int) =~= content);
    }
}

/// Width invariant for numbers: sign, prefix and digits of `n` characters in
/// all come out `max(n, w)` characters long under a fixed width `w`.
pub proof fn law_number_width(
    spec: SpecView,
    w: usize,
    sign: Seq<char>,
    prefix: Seq<char>,
    digits: Seq<char>,
)
    requires
        spec.min_field_width == Some(CFormatQuantity::Amount(w)),
    ensures
        ({
            let n = sign.len() + prefix.len() + digits.len();
            signed_text(spec, sign, prefix, digits).len() == if n >= w {
                n
            } else {
                w as nat
            }
        }),
{
}

/// Left-adjust wins over zero-pad: with both flags the number stands at the
/// left and spaces fill up to the width, exactly as without zero-pad.
pub proof fn law_left_adjust_wins(
    spec: SpecView,
    sign: Seq<char>,
    prefix: Seq<char>,
    digits: Seq<char>,
)
    requires
        spec.flags.zero_pad,
        spec.flags.left_adjust,
    ensures
        signed_text(spec, sign, prefix, digits) == sign + prefix + digits + repeated(
            ' ',
            padding(spec.min_field_width, (sign + prefix + digits).len()),
        ),
        signed_text(spec, sign, prefix, digits) == signed_text(
            SpecView { flags: CConversionFlags { zero_pad: false, ..spec.flags }, ..spec },
            sign,
            prefix,
            digits,
        ),
{
    let pad = repeated(' ', padding(spec.min_field_width, (sign + prefix + digits).len()));
    assert((sign + prefix) + (digits + pad) =~= sign + prefix + digits + pad);
}

/// The sign that a number of the given sign gets under the given flags: `-`
/// for a negative one whatever the flags, else `+` before a space before
/// nothing.
pub open spec fn expected_sign(flags: CConversionFlags, negative: bool) -> Seq<char> {
    if negative {
        seq!['-']
    } else if flags.sign_char {
        seq!['+']
    } else if flags.blank_sign {
        seq![' ']
    } else {
        Seq::empty()
    }
}

/// Sign precedence: a number is laid out with `-` when it is negative,
/// whatever the flags say, and else with `+` where force-sign is set, also
/// when blank-sign is set with it. Where the fill does not stand in front
/// (zero-pad, left-adjust, or no width), the text starts with that sign.
pub proof fn law_sign_precedence(spec: SpecView, value: int)
    ensures
        ({
            let sign = expected_sign(spec.flags, value < 0);
            let magnitude = (if value < 0 {
                -value
            } else {
                value
            }) as nat;
            &&& number_text(spec, value) == signed_text(
                spec,
                sign,
                radix_prefix(spec),
                magnitude_text(spec.format_type, magnitude),
            )
            &&& (spec.flags.zero_pad || spec.flags.left_adjust || fixed_amount(
                spec.min_field_width,
            ) is None) ==> number_text(spec, value).subrange(0, sign.len() as int) == sign
        }),
{
    let sign = expected_sign(spec.flags, value < 0);
    assert(sign == sign_of(spec, value < 0));
    if spec.flags.zero_pad || spec.flags.left_adjust || fixed_amount(spec.min_field_width) is None {
        assert(number_text(spec, value).subrange(0, sign.len() as int) =~= sign);
    }
}

/// Precision counts characters: a text under a fixed precision `p` and no
/// width comes out as its first `p` characters, or whole where it has no
/// more than `p`.
pub proof fn law_precision_counts_characters(spec: SpecView, text: Seq<char>, p: usize)
    requires
        spec.precision == Some(CFormatQuantity::Amount(p)),
        spec.min_field_width is None,
    ensures
        string_text(spec, text, spec.precision) == (if text.len() > p {
            text.take(p as int)
        } else {
            text
        }),
        string_text(spec, text, spec.precision).len() <= p,
{
    let cut = truncated(text, spec.precision);
    assert(cut + repeated(' ', 0) =~= cut);
    assert(repeated(' ', 0) + cut =~= cut);
}

} // verus!
