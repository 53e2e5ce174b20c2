use cformat::binder::{Arguments, Bound, Element, Outcome, Source};
use cformat::convert::Conversion;
use cformat::error::{CFormatError, CFormatErrorType, FormatError, HostError};
use cformat::number::{BigNumber, Sign};
use cformat::specifier::{CFloatType, CFormatPart, CFormatQuantity, CFormatSpec, CFormatType};
use cformat::template::{CFormatBytes, CFormatString};
use cformat::value::{FloatValue, Kind, Value};

fn no_conversion() -> HostError {
    HostError {
        message: "not converted".to_owned(),
    }
}

fn other(class_name: &str, display: &str, repr: &str) -> Value {
    Value {
        kind: Kind::Other,
        class_name: class_name.to_owned(),
        display: Ok(display.to_owned()),
        repr: Ok(repr.to_owned()),
        bytes: Err(no_conversion()),
        float: Ok(None),
    }
}

fn integer(v: i64) -> Value {
    Value {
        kind: Kind::Integer(BigNumber::from_i64(v)),
        class_name: "int".to_owned(),
        display: Ok(v.to_string()),
        repr: Ok(v.to_string()),
        bytes: Err(no_conversion()),
        float: Ok(None),
    }
}

fn text(s: &str) -> Value {
    Value {
        kind: Kind::Text(s.to_owned()),
        class_name: "str".to_owned(),
        display: Ok(s.to_owned()),
        repr: Ok(format!("'{}'", s)),
        bytes: Err(no_conversion()),
        float: Ok(None),
    }
}

/// The scaling of a magnitude to one digit in front of the decimal point.
fn normalize(num: f64) -> (f64, i32) {
    let mut fraction = num;
    let mut exponent = 0;
    loop {
        if fraction >= 10.0 {
            fraction /= 10.0;
            exponent += 1;
        } else if fraction < 1.0 && fraction > 0.0 {
            fraction *= 10.0;
            exponent -= 1;
        } else {
            break;
        }
    }
    (fraction, exponent)
}

/// The digits of a float as the host writes them for a specifier.
fn float_value(v: f64, spec: &CFormatSpec) -> FloatValue {
    let precision = spec.float_precision();
    match spec.format_type {
        CFormatType::Float(CFloatType::Exponent(_)) => {
            let (fraction, exponent) = normalize(v.abs());
            FloatValue {
                sign_positive: v.is_sign_positive(),
                magnitude: format!("{:.*}", precision, fraction),
                exponent: Some(exponent),
            }
        }
        _ => FloatValue {
            sign_positive: v.is_sign_positive(),
            magnitude: format!("{:.*}", precision, v.abs()),
            exponent: None,
        },
    }
}

/// A float as the host resolves it for a specifier: the digits of the
/// magnitude are written with the precision that the specifier asks for.
fn float(v: f64, spec: &CFormatSpec) -> Value {
    Value {
        kind: Kind::Float(Ok(BigNumber::from_i64(v.trunc() as i64))),
        class_name: "float".to_owned(),
        display: Ok(format!("{:?}", v)),
        repr: Ok(format!("{:?}", v)),
        bytes: Err(no_conversion()),
        float: Ok(Some(float_value(v, spec))),
    }
}

fn bytes(b: &[u8]) -> Value {
    Value {
        kind: Kind::Other,
        class_name: "bytes".to_owned(),
        display: Ok(format!("{:?}", b)),
        repr: Ok(format!("{:?}", b)),
        bytes: Ok(b.to_vec()),
        float: Ok(None),
    }
}

fn ints(values: &[i64]) -> Arguments {
    Arguments::Sequence(
        values
            .iter()
            .map(|v| Element::Integer(BigNumber::from_i64(*v)))
            .collect(),
    )
}

fn finished(s: &str) -> Outcome<String> {
    Outcome::Finished(s.to_owned())
}

#[test]
fn keyed_specifier_asks_for_its_key_and_renders_the_value() {
    let template = CFormatString::from_str("%(amount)d").unwrap();
    let pending = template.format(&Arguments::Mapping, &vec![]);
    match pending {
        Outcome::Pending(Bound { spec, source }) => {
            assert_eq!(source, Source::Key("amount".to_owned()));
            assert_eq!(spec, CFormatSpec::from_str("%(amount)d").unwrap());
        }
        other => panic!("unexpected outcome {:?}", other),
    }
    assert_eq!(
        template.format(&Arguments::Mapping, &vec![Ok(integer(5))]),
        finished("5")
    );
}

#[test]
fn keyed_template_refuses_a_sequence() {
    let template = CFormatString::from_str("%(amount)d").unwrap();
    assert_eq!(
        template.format(&ints(&[5]), &vec![Ok(integer(5))]),
        Outcome::Failed(FormatError::MappingRequired)
    );
    assert_eq!(
        template.format(&Arguments::Single(Element::Other), &vec![]),
        Outcome::Failed(FormatError::MappingRequired)
    );
}

#[test]
fn missing_key_surfaces_the_hosts_error() {
    let template = CFormatString::from_str("%(amount)d").unwrap();
    let error = HostError {
        message: "KeyError: 'amount'".to_owned(),
    };
    assert_eq!(
        template.format(&Arguments::Mapping, &vec![Err(error.clone())]),
        Outcome::Failed(FormatError::Host(error))
    );
}

#[test]
fn literal_template_renders_to_its_source() {
    let template = CFormatString::from_str("Hello, world").unwrap();
    assert_eq!(
        template.format(&Arguments::Sequence(vec![]), &vec![]),
        finished("Hello, world")
    );
    assert_eq!(
        template.format(&Arguments::Mapping, &vec![]),
        finished("Hello, world")
    );
    let empty = CFormatString::from_str("").unwrap();
    assert_eq!(empty.parts, vec![]);
    assert_eq!(
        empty.format(&Arguments::Sequence(vec![]), &vec![]),
        finished("")
    );
}

#[test]
fn literal_template_refuses_positional_arguments() {
    let template = CFormatString::from_str("Hello").unwrap();
    assert_eq!(
        template.format(&ints(&[1]), &vec![]),
        Outcome::Failed(FormatError::NotAllArgumentsConverted)
    );
    assert_eq!(
        template.format(&Arguments::Single(Element::Other), &vec![]),
        Outcome::Failed(FormatError::NotAllArgumentsConverted)
    );
    let empty = CFormatString::from_str("").unwrap();
    assert_eq!(
        empty.format(&ints(&[1]), &vec![]),
        Outcome::Failed(FormatError::NotAllArgumentsConverted)
    );
}

#[test]
fn literal_byte_template_renders_to_its_source() {
    let source: Vec<u8> = vec![b'a', 0xe9, 0xff, b' ', 0x00, b'z'];
    let template = CFormatBytes::parse_from_bytes(&source).unwrap();
    assert_eq!(
        template.format(&Arguments::Sequence(vec![]), &vec![]),
        Outcome::Finished(source.clone())
    );
    assert_eq!(
        template.format(&Arguments::Mapping, &vec![]),
        Outcome::Finished(source)
    );
}

#[test]
fn doubled_percent_is_one_literal() {
    let template = CFormatString::from_str("%%").unwrap();
    assert_eq!(
        template.parts,
        vec![(0, CFormatPart::Literal("%".to_owned()))]
    );
    let template = CFormatString::from_str("100%% sure%%").unwrap();
    assert_eq!(
        template.parts,
        vec![(0, CFormatPart::Literal("100% sure%".to_owned()))]
    );
    assert_eq!(
        template.format(&Arguments::Sequence(vec![]), &vec![]),
        finished("100% sure%")
    );
}

#[test]
fn literal_offset_after_specifier() {
    let template = CFormatString::from_str("%d%%x").unwrap();
    assert_eq!(template.parts.len(), 2);
    assert_eq!(template.parts[0].0, 0);
    assert_eq!(
        template.parts[1],
        (2, CFormatPart::Literal("%x".to_owned()))
    );
}

#[test]
fn positional_specifiers_take_values_in_order() {
    let template = CFormatString::from_str("Hello, my name is %s and I'm %d years old").unwrap();
    let args = Arguments::Sequence(vec![
        Element::Other,
        Element::Integer(BigNumber::from_i64(30)),
    ]);
    match template.format(&args, &vec![]) {
        Outcome::Pending(bound) => assert_eq!(bound.source, Source::Index(0)),
        other => panic!("unexpected outcome {:?}", other),
    }
    match template.format(&args, &vec![Ok(text("Ann"))]) {
        Outcome::Pending(bound) => assert_eq!(bound.source, Source::Index(1)),
        other => panic!("unexpected outcome {:?}", other),
    }
    assert_eq!(
        template.format(&args, &vec![Ok(text("Ann")), Ok(integer(30))]),
        finished("Hello, my name is Ann and I'm 30 years old")
    );
}

#[test]
fn single_object_stands_for_a_sequence_of_one() {
    let template = CFormatString::from_str("<%s>").unwrap();
    assert_eq!(
        template.format(
            &Arguments::Single(Element::Other),
            &vec![Ok(other("list", "[1, 2]", "[1, 2]"))]
        ),
        finished("<[1, 2]>")
    );
    // a mapping under a positional template is the one value
    assert_eq!(
        template.format(
            &Arguments::Mapping,
            &vec![Ok(other("dict", "{'a': 1}", "{'a': 1}"))]
        ),
        finished("<{'a': 1}>")
    );
}

#[test]
fn not_enough_arguments() {
    let template = CFormatString::from_str("%d %d").unwrap();
    assert_eq!(
        template.format(&ints(&[1]), &vec![Ok(integer(1))]),
        Outcome::Failed(FormatError::NotEnoughArguments)
    );
    let template = CFormatString::from_str("%d").unwrap();
    assert_eq!(
        template.format(&Arguments::Sequence(vec![]), &vec![]),
        Outcome::Failed(FormatError::NotEnoughArguments)
    );
}

#[test]
fn leftover_arguments_fail_unless_the_object_is_a_mapping() {
    let template = CFormatString::from_str("%d").unwrap();
    assert_eq!(
        template.format(&ints(&[1, 2]), &vec![Ok(integer(1))]),
        Outcome::Failed(FormatError::NotAllArgumentsConverted)
    );
    let template = CFormatString::from_str("%s").unwrap();
    assert_eq!(
        template.format(&Arguments::Mapping, &vec![Ok(other("dict", "{}", "{}"))]),
        finished("{}")
    );
}

#[test]
fn star_width_and_precision_come_from_the_arguments() {
    let template = CFormatString::from_str("%*d|").unwrap();
    let args = ints(&[5, 42]);
    match template.format(&args, &vec![]) {
        Outcome::Pending(bound) => {
            assert_eq!(bound.source, Source::Index(1));
            assert_eq!(
                bound.spec.min_field_width,
                Some(CFormatQuantity::Amount(5))
            );
        }
        other => panic!("unexpected outcome {:?}", other),
    }
    assert_eq!(
        template.format(&args, &vec![Ok(integer(42))]),
        finished("   42|")
    );
    // the template keeps its marker: a second call resolves it anew
    assert_eq!(
        template.format(&ints(&[3, 7]), &vec![Ok(integer(7))]),
        finished("  7|")
    );

    // width is taken before precision
    let template = CFormatString::from_str("%*.*s").unwrap();
    let args = Arguments::Sequence(vec![
        Element::Integer(BigNumber::from_i64(6)),
        Element::Integer(BigNumber::from_i64(2)),
        Element::Other,
    ]);
    match template.format(&args, &vec![]) {
        Outcome::Pending(bound) => {
            assert_eq!(bound.source, Source::Index(2));
            assert_eq!(
                bound.spec.min_field_width,
                Some(CFormatQuantity::Amount(6))
            );
            assert_eq!(bound.spec.precision, Some(CFormatQuantity::Amount(2)));
        }
        other => panic!("unexpected outcome {:?}", other),
    }
    assert_eq!(
        template.format(&args, &vec![Ok(text("abcdef"))]),
        finished("    ab")
    );
}

#[test]
fn star_precision_reaches_a_float() {
    let template = CFormatString::from_str("%.*f").unwrap();
    let args = Arguments::Sequence(vec![
        Element::Integer(BigNumber::from_i64(2)),
        Element::Other,
    ]);
    let bound = match template.format(&args, &vec![]) {
        Outcome::Pending(bound) => bound,
        other => panic!("unexpected outcome {:?}", other),
    };
    assert_eq!(bound.spec.float_precision(), 2);
    assert_eq!(
        template.format(&args, &vec![Ok(float(3.14159, &bound.spec))]),
        finished("3.14")
    );
}

#[test]
fn star_wants_an_integer() {
    let template = CFormatString::from_str("%*d").unwrap();
    let args = Arguments::Sequence(vec![
        Element::Other,
        Element::Integer(BigNumber::from_i64(1)),
    ]);
    assert_eq!(
        template.format(&args, &vec![]),
        Outcome::Failed(FormatError::StarWantsInt)
    );
    assert_eq!(
        template.format(&Arguments::Mapping, &vec![]),
        Outcome::Failed(FormatError::StarWantsInt)
    );
    assert_eq!(
        template.format(&Arguments::Sequence(vec![]), &vec![]),
        Outcome::Failed(FormatError::NotEnoughArguments)
    );
    // the star was served, the value is missing
    assert_eq!(
        template.format(&ints(&[4]), &vec![]),
        Outcome::Failed(FormatError::NotEnoughArguments)
    );
}

#[test]
fn negative_star_keeps_its_bits() {
    let template = CFormatString::from_str("%*.*d").unwrap();
    let args = ints(&[-1, isize::MIN as i64, 5]);
    match template.format(&args, &vec![]) {
        Outcome::Pending(bound) => {
            assert_eq!(bound.source, Source::Index(2));
            assert_eq!(
                bound.spec.min_field_width,
                Some(CFormatQuantity::Amount(usize::MAX))
            );
            assert_eq!(
                bound.spec.precision,
                Some(CFormatQuantity::Amount(isize::MIN as usize))
            );
        }
        other => panic!("unexpected outcome {:?}", other),
    }
}

#[test]
fn star_too_big() {
    let template = CFormatString::from_str("%*d").unwrap();
    let huge = BigNumber::new(Sign::Plus, vec![0, 0, 1]);
    let args = Arguments::Sequence(vec![
        Element::Integer(huge),
        Element::Integer(BigNumber::from_i64(1)),
    ]);
    assert_eq!(
        template.format(&args, &vec![]),
        Outcome::Failed(FormatError::StarTooBig)
    );
}

#[test]
fn first_failure_in_walk_order_wins() {
    // the first specifier fails on its value before the second one runs out
    // of arguments
    let template = CFormatString::from_str("%x %d").unwrap();
    let args = Arguments::Sequence(vec![Element::Other]);
    assert_eq!(
        template.format(&args, &vec![Ok(text("a"))]),
        Outcome::Failed(FormatError::NumberRequired {
            format_char: 'x',
            accepts_float: false,
            found: "str".to_owned()
        })
    );
}

#[test]
fn number_conversion_takes_floats_in_decimal_only() {
    let spec = CFormatSpec::from_str("%d").unwrap();
    assert_eq!(spec.format(&float(3.99, &spec)), Ok("3".to_owned()));
    assert_eq!(spec.format(&float(-3.99, &spec)), Ok("-3".to_owned()));
    let spec = CFormatSpec::from_str("%x").unwrap();
    assert_eq!(
        spec.format(&float(3.99, &spec)),
        Err(FormatError::NumberRequired {
            format_char: 'x',
            accepts_float: false,
            found: "float".to_owned()
        })
    );
    let spec = CFormatSpec::from_str("%i").unwrap();
    assert_eq!(
        spec.format(&text("3")),
        Err(FormatError::NumberRequired {
            format_char: 'i',
            accepts_float: true,
            found: "str".to_owned()
        })
    );
    let mut not_finite = float(1.0, &spec);
    let error = HostError {
        message: "cannot convert float infinity to integer".to_owned(),
    };
    not_finite.kind = Kind::Float(Err(error.clone()));
    assert_eq!(spec.format(&not_finite), Err(FormatError::Host(error)));
}

#[test]
fn float_conversion() {
    let spec = CFormatSpec::from_str("%f").unwrap();
    assert_eq!(
        spec.format(&float(1.2345678901, &spec)),
        Ok("1.234568".to_owned())
    );
    let spec = CFormatSpec::from_str("%010.3f").unwrap();
    assert_eq!(
        spec.format(&float(-3.14159, &spec)),
        Ok("-00003.142".to_owned())
    );
    let spec = CFormatSpec::from_str("%-10.3f|").unwrap();
    assert_eq!(
        spec.format(&float(3.14159, &spec)),
        Ok("3.142     ".to_owned())
    );
    let spec = CFormatSpec::from_str("%+.1f").unwrap();
    assert_eq!(spec.format(&float(2.5, &spec)), Ok("+2.5".to_owned()));
    let spec = CFormatSpec::from_str("%f").unwrap();
    assert_eq!(
        spec.format(&text("1.0")),
        Err(FormatError::FloatRequired {
            format_char: 'f',
            found: "str".to_owned()
        })
    );
}

#[test]
fn exponent_style() {
    let spec = CFormatSpec::from_str("%e").unwrap();
    assert_eq!(
        spec.format(&float(12345.678, &spec)),
        Ok("1.234568e+04".to_owned())
    );
    assert_eq!(
        spec.format(&float(-0.00012, &spec)),
        Ok("-1.200000e-04".to_owned())
    );
    assert_eq!(spec.format(&float(0.0, &spec)), Ok("0.000000e+00".to_owned()));
    let spec = CFormatSpec::from_str("%+.2E").unwrap();
    assert_eq!(spec.format(&float(1.5e120, &spec)), Ok("+1.50e+120".to_owned()));
    let spec = CFormatSpec::from_str("%014.3e").unwrap();
    assert_eq!(
        spec.format(&float(-2.5e-7, &spec)),
        Ok("-00002.500e-07".to_owned())
    );
    assert_eq!(CFormatSpec::exponent_string(0), "e+00");
    assert_eq!(CFormatSpec::exponent_string(9), "e+09");
    assert_eq!(CFormatSpec::exponent_string(-9), "e-09");
    assert_eq!(CFormatSpec::exponent_string(10), "e+10");
    assert_eq!(CFormatSpec::exponent_string(-308), "e-308");
    assert_eq!(CFormatSpec::exponent_string(i32::MIN), "e-2147483648");
}

#[test]
fn each_specifier_names_the_conversion_it_reads() {
    let conversion = |text: &str, bytes_template: bool| {
        CFormatSpec::from_str(text).unwrap().conversion(bytes_template)
    };
    assert_eq!(conversion("%s", false), Conversion::Display);
    assert_eq!(conversion("%s", true), Conversion::Bytes);
    assert_eq!(conversion("%b", false), Conversion::Nothing);
    assert_eq!(conversion("%b", true), Conversion::Bytes);
    for bytes_template in [false, true] {
        assert_eq!(conversion("%r", bytes_template), Conversion::Repr);
        assert_eq!(conversion("%a", bytes_template), Conversion::Repr);
        assert_eq!(
            conversion("%d", bytes_template),
            Conversion::Number { truncation: true }
        );
        assert_eq!(
            conversion("%X", bytes_template),
            Conversion::Number { truncation: false }
        );
        assert_eq!(
            conversion("%.3e", bytes_template),
            Conversion::Float {
                exponent: true,
                precision: 3
            }
        );
        assert_eq!(
            conversion("%F", bytes_template),
            Conversion::Float {
                exponent: false,
                precision: 6
            }
        );
        assert_eq!(
            conversion("%.*g", bytes_template),
            Conversion::Float {
                exponent: false,
                precision: 6
            }
        );
        assert_eq!(conversion("%c", bytes_template), Conversion::Character);
    }
    // a value that holds only what the conversion names renders like one
    // that holds everything
    let spec = CFormatSpec::from_str("%5r").unwrap();
    let full = text("ab");
    let mut lazy = other("", "", "");
    lazy.display = Err(no_conversion());
    lazy.repr = Ok("'ab'".to_owned());
    assert_eq!(spec.format(&lazy), spec.format(&full));
    assert_eq!(spec.format(&lazy), Ok(" 'ab'".to_owned()));
}

#[test]
fn values_beyond_need_are_ignored() {
    let template = CFormatString::from_str("%d-%d").unwrap();
    let args = ints(&[1, 2]);
    let enough = template.format(&args, &vec![Ok(integer(1)), Ok(integer(2))]);
    assert_eq!(enough, finished("1-2"));
    let more = template.format(
        &args,
        &vec![Ok(integer(1)), Ok(integer(2)), Ok(integer(3)), Ok(text("x"))],
    );
    assert_eq!(more, enough);
    let failing = CFormatString::from_str("%c%d").unwrap();
    assert_eq!(
        failing.format(&args, &vec![Ok(text("ab"))]),
        Outcome::Failed(FormatError::CharRequired)
    );
    assert_eq!(
        failing.format(&args, &vec![Ok(text("ab")), Ok(integer(2))]),
        Outcome::Failed(FormatError::CharRequired)
    );
}

#[test]
fn a_value_for_each_pending_specifier_ends_the_call() {
    let template = CFormatString::from_str("a%sb%*.*dc%%%xd").unwrap();
    let args = Arguments::Sequence(vec![
        Element::Other,
        Element::Integer(BigNumber::from_i64(4)),
        Element::Integer(BigNumber::from_i64(1)),
        Element::Integer(BigNumber::from_i64(7)),
        Element::Integer(BigNumber::from_i64(255)),
    ]);
    let supply = [(0usize, text("x")), (3, integer(7)), (4, integer(255))];
    let mut values = Vec::new();
    let mut calls = 0;
    let result = loop {
        calls += 1;
        match template.format(&args, &values) {
            Outcome::Pending(bound) => {
                let (index, value) = &supply[values.len()];
                assert_eq!(bound.source, Source::Index(*index));
                values.push(Ok(Value {
                    kind: match &value.kind {
                        Kind::Integer(n) => Kind::Integer(n.clone()),
                        Kind::Text(s) => Kind::Text(s.clone()),
                        _ => Kind::Other,
                    },
                    class_name: value.class_name.clone(),
                    display: value.display.clone(),
                    repr: value.repr.clone(),
                    bytes: value.bytes.clone(),
                    float: value.float.clone(),
                }));
            }
            done => break done,
        }
    };
    assert_eq!(calls, 4);
    assert_eq!(result, finished("axb   7c%ffd"));
}

#[test]
fn mixed_template_looks_keys_up_in_the_sequence() {
    let template = CFormatString::from_str("%(a)s %s").unwrap();
    match template.format(&Arguments::Mapping, &vec![]) {
        Outcome::Pending(bound) => {
            assert_eq!(bound.source, Source::KeyInSequence("a".to_owned()))
        }
        other => panic!("unexpected outcome {:?}", other),
    }
    match template.format(&ints(&[1]), &vec![Ok(integer(1))]) {
        Outcome::Pending(bound) => assert_eq!(bound.source, Source::Index(0)),
        other => panic!("unexpected outcome {:?}", other),
    }
    // a keyed specifier keeps its star
    let template = CFormatString::from_str("%(a)*d%d").unwrap();
    match template.format(&ints(&[1]), &vec![]) {
        Outcome::Pending(bound) => {
            assert_eq!(bound.source, Source::KeyInSequence("a".to_owned()));
            assert_eq!(
                bound.spec.min_field_width,
                Some(CFormatQuantity::FromValuesTuple)
            );
        }
        other => panic!("unexpected outcome {:?}", other),
    }
}

#[test]
fn general_float_is_not_rendered() {
    let spec = CFormatSpec::from_str("%g").unwrap();
    assert_eq!(
        spec.format(&float(1.5, &spec)),
        Err(FormatError::GeneralFloatNotImplemented)
    );
    let spec = CFormatSpec::from_str("%G").unwrap();
    assert_eq!(
        spec.format(&float(1.5, &spec)),
        Err(FormatError::GeneralFloatNotImplemented)
    );
    // a value that is no number fails on its type first
    assert_eq!(
        spec.format(&text("x")),
        Err(FormatError::FloatRequired {
            format_char: 'G',
            found: "str".to_owned()
        })
    );
}

#[test]
fn character_conversion() {
    let spec = CFormatSpec::from_str("%c").unwrap();
    assert_eq!(spec.format(&integer(97)), Ok("a".to_owned()));
    assert_eq!(spec.format(&integer(0x2764)), Ok("❤".to_owned()));
    assert_eq!(spec.format(&integer(0x10ffff)), Ok("\u{10ffff}".to_owned()));
    assert_eq!(spec.format(&text("❤")), Ok("❤".to_owned()));
    assert_eq!(spec.format(&text("ab")), Err(FormatError::CharRequired));
    assert_eq!(spec.format(&text("")), Err(FormatError::CharRequired));
    assert_eq!(
        spec.format(&other("list", "[]", "[]")),
        Err(FormatError::CharRequired)
    );
    assert_eq!(
        spec.format(&integer(0x110000)),
        Err(FormatError::CharOutOfRange)
    );
    assert_eq!(spec.format(&integer(-1)), Err(FormatError::CharOutOfRange));
    assert_eq!(
        spec.format(&integer(0xd800)),
        Err(FormatError::CharOutOfRange)
    );
    let spec = CFormatSpec::from_str("%3c").unwrap();
    assert_eq!(spec.format(&integer(97)), Ok("  a".to_owned()));
    let spec = CFormatSpec::from_str("%-3c").unwrap();
    assert_eq!(spec.format(&text("b")), Ok("b  ".to_owned()));
}

#[test]
fn string_conversions() {
    let value = text("abc");
    assert_eq!(
        CFormatSpec::from_str("%s").unwrap().format(&value),
        Ok("abc".to_owned())
    );
    assert_eq!(
        CFormatSpec::from_str("%r").unwrap().format(&value),
        Ok("'abc'".to_owned())
    );
    assert_eq!(
        CFormatSpec::from_str("%a").unwrap().format(&value),
        Ok("'abc'".to_owned())
    );
    assert_eq!(
        CFormatSpec::from_str("%b").unwrap().format(&value),
        Err(FormatError::BytesConversionInText)
    );
    let mut failing = text("abc");
    let error = HostError {
        message: "__str__ raised".to_owned(),
    };
    failing.display = Err(error.clone());
    assert_eq!(
        CFormatSpec::from_str("%s").unwrap().format(&failing),
        Err(FormatError::Host(error))
    );
    assert_eq!(
        CFormatSpec::from_str("%r").unwrap().format(&failing),
        Ok("'abc'".to_owned())
    );
}

#[test]
fn byte_templates() {
    let template = CFormatBytes::parse_from_bytes(b"<%5.2s|%-4b|%d|%r>").unwrap();
    let args = Arguments::Sequence(vec![
        Element::Other,
        Element::Other,
        Element::Integer(BigNumber::from_i64(7)),
        Element::Other,
    ]);
    let values = vec![
        Ok(bytes(b"abcdef")),
        Ok(bytes(&[0xff, 0x00])),
        Ok(integer(7)),
        Ok(other("str", "é", "'é'")),
    ];
    let mut expected: Vec<u8> = Vec::new();
    expected.extend_from_slice(b"<   ab|");
    expected.extend_from_slice(&[0xff, 0x00, b' ', b' ']);
    expected.extend_from_slice(b"|7|");
    expected.extend_from_slice("'é'".as_bytes());
    expected.extend_from_slice(b">");
    assert_eq!(template.format(&args, &values), Outcome::Finished(expected));

    let spec = CFormatSpec::from_str("%s").unwrap();
    let error = HostError {
        message: "no bytes".to_owned(),
    };
    let mut value = text("abc");
    value.bytes = Err(error.clone());
    assert_eq!(spec.bytes_format(&value), Err(FormatError::Host(error)));
}

#[test]
fn format_bytes_counts_bytes() {
    let spec = CFormatSpec::from_str("%6.3s").unwrap();
    assert_eq!(spec.format_bytes("❤❤".as_bytes()), b"   \xe2\x9d\xa4".to_vec());
    let spec = CFormatSpec::from_str("%-6.3s").unwrap();
    assert_eq!(spec.format_bytes(b"abcdef"), b"abc   ".to_vec());
    let spec = CFormatSpec::from_str("%2s").unwrap();
    assert_eq!(spec.format_bytes(b"abcdef"), b"abcdef".to_vec());
    let spec = CFormatSpec::from_str("%s").unwrap();
    assert_eq!(spec.format_bytes(b""), b"".to_vec());
}

#[test]
fn parse_error_messages() {
    assert_eq!(
        CFormatString::from_str("Hello %n").unwrap_err().to_string(),
        "unsupported format character 'n' (0x6e) at index 7"
    );
    assert_eq!(
        CFormatString::from_str("%(aged").unwrap_err().to_string(),
        "incomplete format key"
    );
    assert_eq!(
        CFormatString::from_str("Hello %").unwrap_err().to_string(),
        "incomplete format"
    );
    assert_eq!(
        CFormatError::new(CFormatErrorType::IntTooBig, 3).to_string(),
        "width/precision too big"
    );
    assert_eq!(
        CFormatError::from_parsing_error((CFormatErrorType::MissingModuloSign, 1)).to_string(),
        "unexpected error parsing format string"
    );
    assert_eq!(
        CFormatError::new(CFormatErrorType::UnsupportedFormatChar('❤'), 1234567).to_string(),
        "unsupported format character '❤' (0x2764) at index 1234567"
    );
}

#[test]
fn format_error_messages() {
    assert_eq!(
        FormatError::MappingRequired.to_string(),
        "format requires a mapping"
    );
    assert_eq!(
        FormatError::NotEnoughArguments.to_string(),
        "not enough arguments for format string"
    );
    assert_eq!(
        FormatError::NotAllArgumentsConverted.to_string(),
        "not all arguments converted during string formatting"
    );
    assert_eq!(FormatError::StarWantsInt.to_string(), "* wants int");
    assert_eq!(FormatError::StarTooBig.to_string(), "* argument too big");
    assert_eq!(
        FormatError::NumberRequired {
            format_char: 'd',
            accepts_float: true,
            found: "str".to_owned()
        }
        .to_string(),
        "%d format: a number is required, not str"
    );
    assert_eq!(
        FormatError::NumberRequired {
            format_char: 'x',
            accepts_float: false,
            found: "float".to_owned()
        }
        .to_string(),
        "%x format: an integer is required, not float"
    );
    assert_eq!(
        FormatError::FloatRequired {
            format_char: 'f',
            found: "str".to_owned()
        }
        .to_string(),
        "%f format: an floating point or integer is required, not str"
    );
    assert_eq!(
        FormatError::CharRequired.to_string(),
        "%c requires int or char"
    );
    assert_eq!(
        FormatError::CharOutOfRange.to_string(),
        "%c arg not in range(0x110000)"
    );
    assert_eq!(
        FormatError::BytesConversionInText.to_string(),
        "unsupported format character 'b' (0x62)"
    );
    assert_eq!(
        FormatError::GeneralFloatNotImplemented.to_string(),
        "Not yet implemented for %g and %G"
    );
    assert_eq!(
        FormatError::Host(HostError {
            message: "boom".to_owned()
        })
        .to_string(),
        "boom"
    );
}
