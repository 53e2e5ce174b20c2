use cformat::number::{BigNumber, Sign};
use cformat::specifier::{
    CConversionFlags, CFloatType, CFormatQuantity, CFormatSpec, CFormatType, CNumberType,
};
use num_bigint::BigInt;

/// The library's number for a `BigInt`: its sign and its digits in base 2^32.
fn number(n: &BigInt) -> BigNumber {
    let (sign, digits) = n.to_u32_digits();
    let sign = match sign {
        num_bigint::Sign::Minus => Sign::Minus,
        num_bigint::Sign::NoSign => Sign::NoSign,
        num_bigint::Sign::Plus => Sign::Plus,
    };
    BigNumber::new(sign, digits)
}

/// Renders a float the way the host does: it writes the magnitude, the
/// library adds sign and fill.
fn format_float(spec: &CFormatSpec, num: f64) -> Result<String, String> {
    let magnitude = match spec.format_type {
        CFormatType::Float(CFloatType::PointDecimal) => {
            format!("{:.*}", spec.float_precision(), num.abs())
        }
        CFormatType::Float(CFloatType::Exponent(_)) => {
            let mut fraction = num.abs();
            let mut exponent = 0;
            while fraction >= 10.0 {
                fraction /= 10.0;
                exponent += 1;
            }
            while fraction < 1.0 && fraction > 0.0 {
                fraction *= 10.0;
                exponent -= 1;
            }
            let digits = format!("{:.*}", spec.float_precision(), fraction);
            CFormatSpec::float_magnitude_string(&digits, Some(exponent))
        }
        _ => return Err("Not yet implemented for %g and %G".to_owned()),
    };
    Ok(spec.format_float(num.is_sign_positive(), magnitude))
}

#[test]
fn test_fill_and_align() {
    assert_eq!(
        "%10s".parse::<CFormatSpec>()
            .unwrap()
            .format_string("test".to_owned()),
        "      test".to_owned()
    );
    assert_eq!(
        "%-10s".parse::<CFormatSpec>()
            .unwrap()
            .format_string("test".to_owned()),
        "test      ".to_owned()
    );
    assert_eq!(
        "%#10x".parse::<CFormatSpec>()
            .unwrap()
            .format_number(&number(&BigInt::from(0x1337))),
        "    0x1337".to_owned()
    );
    assert_eq!(
        "%-#10x".parse::<CFormatSpec>()
            .unwrap()
            .format_number(&number(&BigInt::from(0x1337))),
        "0x1337    ".to_owned()
    );
}

#[test]
fn test_parse_flags() {
    let expected = Ok(CFormatSpec {
        format_type: CFormatType::Number(CNumberType::Decimal),
        format_char: 'd',
        min_field_width: Some(CFormatQuantity::Amount(10)),
        precision: None,
        mapping_key: None,
        flags: CConversionFlags::all(),
    });
    let parsed = "%  0   -+++###10d".parse::<CFormatSpec>();
    assert_eq!(parsed, expected);
    assert_eq!(
        parsed.unwrap().format_number(&number(&BigInt::from(12))),
        "+12       ".to_owned()
    );
}

#[test]
fn test_parse_and_format_string() {
    assert_eq!(
        "%5.4s".parse::<CFormatSpec>()
            .unwrap()
            .format_string("Hello, World!".to_owned()),
        " Hell".to_owned()
    );
    assert_eq!(
        "%-5.4s".parse::<CFormatSpec>()
            .unwrap()
            .format_string("Hello, World!".to_owned()),
        "Hell ".to_owned()
    );
}

#[test]
fn test_parse_and_format_unicode_string() {
    assert_eq!(
        "%.2s".parse::<CFormatSpec>()
            .unwrap()
            .format_string("❤❤❤❤❤❤❤❤".to_owned()),
        "❤❤".to_owned()
    );
}

#[test]
fn test_parse_and_format_number() {
    assert_eq!(
        "%05d".parse::<CFormatSpec>()
            .unwrap()
            .format_number(&number(&BigInt::from(27))),
        "00027".to_owned()
    );
    assert_eq!(
        "%+05d".parse::<CFormatSpec>()
            .unwrap()
            .format_number(&number(&BigInt::from(27))),
        "+0027".to_owned()
    );
    assert_eq!(
        "%-d".parse::<CFormatSpec>()
            .unwrap()
            .format_number(&number(&BigInt::from(-27))),
        "-27".to_owned()
    );
    assert_eq!(
        "% d".parse::<CFormatSpec>()
            .unwrap()
            .format_number(&number(&BigInt::from(27))),
        " 27".to_owned()
    );
    assert_eq!(
        "% d".parse::<CFormatSpec>()
            .unwrap()
            .format_number(&number(&BigInt::from(-27))),
        "-27".to_owned()
    );
    assert_eq!(
        "%08x".parse::<CFormatSpec>()
            .unwrap()
            .format_number(&number(&BigInt::from(0x1337))),
        "00001337".to_owned()
    );
    assert_eq!(
        "%#010x".parse::<CFormatSpec>()
            .unwrap()
            .format_number(&number(&BigInt::from(0x1337))),
        "0x00001337".to_owned()
    );
    assert_eq!(
        "%-#010x".parse::<CFormatSpec>()
            .unwrap()
            .format_number(&number(&BigInt::from(0x1337))),
        "0x1337    ".to_owned()
    );
}

#[test]
fn test_parse_and_format_float() {
    assert_eq!(
        format_float(&"%f".parse::<CFormatSpec>().unwrap(), 1.2345).ok(),
        Some("1.234500".to_owned())
    );
    assert_eq!(
        format_float(&"%+f".parse::<CFormatSpec>().unwrap(), 1.2345).ok(),
        Some("+1.234500".to_owned())
    );
    assert_eq!(
        format_float(&"% f".parse::<CFormatSpec>().unwrap(), 1.2345).ok(),
        Some(" 1.234500".to_owned())
    );
    assert_eq!(
        format_float(&"%f".parse::<CFormatSpec>().unwrap(), -1.2345).ok(),
        Some("-1.234500".to_owned())
    );
    assert_eq!(
        format_float(&"%f".parse::<CFormatSpec>().unwrap(), 1.2345678901).ok(),
        Some("1.234568".to_owned())
    );
}

#[test]
fn left_adjust_wins_over_zero_pad() {
    assert_eq!(
        CFormatSpec::from_str("%-05d")
            .unwrap()
            .format_number(&number(&BigInt::from(3))),
        "3    ".to_owned()
    );
    assert_eq!(
        CFormatSpec::from_str("%0-+8x")
            .unwrap()
            .format_number(&number(&BigInt::from(255))),
        "+ff     ".to_owned()
    );
}

#[test]
fn force_sign_outranks_blank_sign() {
    for text in ["%+ d", "% +d"] {
        let spec = CFormatSpec::from_str(text).unwrap();
        assert_eq!(spec.flags.sign_string(), "+");
        assert_eq!(spec.format_number(&number(&BigInt::from(5))), "+5");
        assert_eq!(spec.format_number(&number(&BigInt::from(0))), "+0");
        assert_eq!(spec.format_number(&number(&BigInt::from(-5))), "-5");
    }
    assert_eq!(CFormatSpec::from_str("% d").unwrap().flags.sign_string(), " ");
    assert_eq!(CFormatSpec::from_str("%d").unwrap().flags.sign_string(), "");
    assert_eq!(CConversionFlags::all().sign_string(), "+");
    assert_eq!(CConversionFlags::empty().sign_string(), "");
}

#[test]
fn rendered_length_is_the_larger_of_content_and_width() {
    for width in 0..8usize {
        for content in ["", "a", "abc", "abcdefgh", "❤❤"] {
            for left in [false, true] {
                let text = format!("%{}{}s", if left { "-" } else { "" }, width);
                let spec = CFormatSpec::from_str(&text).unwrap();
                let rendered = spec.format_string(content.to_owned());
                let n = content.chars().count();
                assert_eq!(rendered.chars().count(), n.max(width));
                let fill = " ".repeat(width.saturating_sub(n));
                if left {
                    assert_eq!(rendered, format!("{}{}", content, fill));
                } else {
                    assert_eq!(rendered, format!("{}{}", fill, content));
                }
            }
        }
    }
}

#[test]
fn fill_string_counts_the_prefix() {
    let spec = CFormatSpec::from_str("%6d").unwrap();
    assert_eq!(spec.fill_string("12".to_owned(), '0', Some(2)), "0012");
    assert_eq!(spec.fill_string("12".to_owned(), '*', None), "****12");
    assert_eq!(spec.fill_string("1234567".to_owned(), '*', None), "1234567");
    assert_eq!(
        spec.fill_string("12".to_owned(), '*', Some(usize::MAX)),
        "12"
    );
    let spec = CFormatSpec::from_str("%-6d").unwrap();
    assert_eq!(spec.fill_string("12".to_owned(), ' ', Some(1)), "12   ");
    let spec = CFormatSpec::from_str("%*d").unwrap();
    assert_eq!(spec.fill_string("12".to_owned(), ' ', None), "12");
    assert_eq!(CFormatSpec::compute_fill_string('x', 3), "xxx");
    assert_eq!(CFormatSpec::compute_fill_string('x', 0), "");
}

#[test]
fn numbers_in_every_radix() {
    let n = number(&BigInt::from(0xabcdefu64));
    assert_eq!(CFormatSpec::from_str("%d").unwrap().format_number(&n), "11259375");
    assert_eq!(CFormatSpec::from_str("%o").unwrap().format_number(&n), "52746757");
    assert_eq!(CFormatSpec::from_str("%x").unwrap().format_number(&n), "abcdef");
    assert_eq!(CFormatSpec::from_str("%X").unwrap().format_number(&n), "ABCDEF");
    assert_eq!(CFormatSpec::from_str("%#o").unwrap().format_number(&n), "0o52746757");
    assert_eq!(CFormatSpec::from_str("%#x").unwrap().format_number(&n), "0xabcdef");
    assert_eq!(CFormatSpec::from_str("%#X").unwrap().format_number(&n), "0XABCDEF");
    assert_eq!(CFormatSpec::from_str("%#d").unwrap().format_number(&n), "11259375");
    let zero = number(&BigInt::from(0));
    assert_eq!(CFormatSpec::from_str("%d").unwrap().format_number(&zero), "0");
    assert_eq!(CFormatSpec::from_str("%#x").unwrap().format_number(&zero), "0x0");
    let negative = number(&BigInt::from(-255));
    assert_eq!(
        CFormatSpec::from_str("%#06x").unwrap().format_number(&negative),
        "-0x0ff"
    );
    assert_eq!(
        CFormatSpec::from_str("%6d").unwrap().format_number(&negative),
        "  -255"
    );
}

#[test]
fn numbers_beyond_machine_integers() {
    let big: BigInt = "123456789012345678901234567890123456789".parse().unwrap();
    assert_eq!(
        CFormatSpec::from_str("%d").unwrap().format_number(&number(&big)),
        "123456789012345678901234567890123456789"
    );
    assert_eq!(
        CFormatSpec::from_str("%x").unwrap().format_number(&number(&-big.clone())),
        format!("-{}", big.to_str_radix(16))
    );
    assert_eq!(
        CFormatSpec::from_str("%+o").unwrap().format_number(&number(&big)),
        format!("+{}", big.to_str_radix(8))
    );
}

#[test]
fn big_numbers() {
    assert_eq!(BigNumber::from_i64(0).sign(), Sign::NoSign);
    assert_eq!(BigNumber::from_i64(7).sign(), Sign::Plus);
    assert_eq!(BigNumber::from_i64(-7).sign(), Sign::Minus);
    assert_eq!(BigNumber::new(Sign::Minus, vec![0, 0]).sign(), Sign::NoSign);
    assert_eq!(BigNumber::new(Sign::NoSign, vec![5]).sign(), Sign::NoSign);
    assert_eq!(BigNumber::new(Sign::NoSign, vec![5]).to_str_radix(10), "0");
    assert_eq!(BigNumber::from_i64(i64::MIN).to_str_radix(10), i64::MIN.to_string());
    assert_eq!(BigNumber::from_i64(i64::MAX).to_str_radix(10), i64::MAX.to_string());
    assert_eq!(BigNumber::from_u64(u64::MAX).to_str_radix(16), "ffffffffffffffff");
    assert_eq!(BigNumber::from_i64(-35).to_str_radix(36), "-z");
    assert_eq!(BigNumber::from_i64(-35).abs().to_str_radix(2), "100011");
    assert_eq!(BigNumber::new(Sign::Plus, vec![0, 1]).to_str_radix(10), "4294967296");

    assert_eq!(BigNumber::from_i64(97).to_u32(), Some(97));
    assert_eq!(BigNumber::from_u64(u32::MAX as u64).to_u32(), Some(u32::MAX));
    assert_eq!(BigNumber::from_u64(u32::MAX as u64 + 1).to_u32(), None);
    assert_eq!(BigNumber::from_i64(-1).to_u32(), None);
    assert_eq!(BigNumber::from_i64(0).to_u32(), Some(0));

    assert_eq!(BigNumber::from_i64(-5).to_isize(), Some(-5));
    assert_eq!(
        BigNumber::from_i64(isize::MAX as i64).to_isize(),
        Some(isize::MAX)
    );
    assert_eq!(
        BigNumber::from_i64(isize::MIN as i64).to_isize(),
        Some(isize::MIN)
    );
    assert_eq!(
        BigNumber::from_u64(isize::MAX as u64 + 1).to_isize(),
        None
    );
    assert_eq!(BigNumber::new(Sign::Minus, vec![0, 0, 1]).to_isize(), None);
}

#[test]
fn float_styles() {
    assert_eq!(
        format_float(&"%.3e".parse::<CFormatSpec>().unwrap(), 1234.56),
        Ok("1.235e+03".to_owned())
    );
    assert_eq!(
        format_float(&"%e".parse::<CFormatSpec>().unwrap(), -0.5),
        Ok("-5.000000e-01".to_owned())
    );
    assert_eq!(
        format_float(&"%.0f".parse::<CFormatSpec>().unwrap(), 2.5),
        Ok("2".to_owned())
    );
    assert_eq!(
        format_float(&"%g".parse::<CFormatSpec>().unwrap(), 2.5),
        Err("Not yet implemented for %g and %G".to_owned())
    );
}

#[test]
fn exponent_style_gets_sign_and_fill_from_the_library() {
    let spec = CFormatSpec::from_str("%+012.2e").unwrap();
    assert_eq!(spec.float_precision(), 2);
    assert_eq!(
        spec.format_float(true, "1.23e+04".to_owned()),
        "+0001.23e+04"
    );
    assert_eq!(
        spec.format_float(false, "1.23e+04".to_owned()),
        "-0001.23e+04"
    );
    let spec = CFormatSpec::from_str("% e").unwrap();
    assert_eq!(spec.float_precision(), 6);
    assert_eq!(
        spec.format_float(true, "1.000000e+00".to_owned()),
        " 1.000000e+00"
    );
}
