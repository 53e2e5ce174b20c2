//! The renderers: one resolved value and one specifier in, formatted text or
//! bytes out.

use vstd::prelude::*;
use vstd::string::{StrSliceExecFns, StringExecFns};
use crate::layout::{
    bytes_text, exponent_text, float_digits, float_magnitude, float_text, number_text, padded,
    padding, signed_text, string_text, truncated,
};
use crate::number::{BigNumber, Sign};
use crate::specifier::{CFormatCase, CFormatQuantity, CFormatSpec, CFormatType, CNumberType};
use crate::text::{char_string, concat, repeated, to_uppercase};

verus! {

/// The length a prefix adds, where there is one.
pub open spec fn prefix_len(num_prefix_chars: Option<usize>) -> nat {
    match num_prefix_chars {
        Some(n) => n as nat,
        None => 0,
    }
}

impl CFormatSpec {
    /// `fill_chars_needed` copies of the fill character.
    pub fn compute_fill_string(fill_char: char, fill_chars_needed: usize) -> (s: String)
        ensures
            s@ == repeated(fill_char, fill_chars_needed as nat),
    {
        let mut s = String::new();
        let mut i: usize = 0;
        while i < fill_chars_needed
            invariant
                i <= fill_chars_needed,
                s@ == repeated(fill_char, i as nat),
            decreases fill_chars_needed - i,
        {
            s.push(fill_char);
            i = i + 1;
            assert(s@ =~= repeated(fill_char, i as nat));
        }
        s
    }

    /// Pads a text to the width with the fill character: on the right when
    /// left-adjusted, else on the left. The length counts characters, and the
    /// characters of a prefix that stands elsewhere count with them.
    pub fn fill_string(
        &self,
        string: String,
        fill_char: char,
        num_prefix_chars: Option<usize>,
    ) -> (r: String)
        ensures
            r@ == padded(
                self.min_field_width,
                self.flags.left_adjust,
                string@,
                fill_char,
                prefix_len(num_prefix_chars),
            ),
    {
        let content = string.as_str().unicode_len();
        let num_chars = match num_prefix_chars {
            Some(n) => content.checked_add(n),
            None => Some(content),
        };
        let fill_chars_needed = match (self.min_field_width, num_chars) {
            (Some(CFormatQuantity::Amount(width)), Some(num_chars)) => if width > num_chars {
                width - num_chars
            } else {
                0
            },
            _ => 0,
        };
        assert(fill_chars_needed == padding(
            self.min_field_width,
            string@.len() + prefix_len(num_prefix_chars),
        ));
        let fill_string = CFormatSpec::compute_fill_string(fill_char, fill_chars_needed);

        if fill_chars_needed > 0 {
            if self.flags.left_adjust {
                concat(string.as_str(), fill_string.as_str())
            } else {
                concat(fill_string.as_str(), string.as_str())
            }
        } else {
            assert(string@ + fill_string@ =~= string@);
            assert(fill_string@ + string@ =~= string@);
            string
        }
    }

    /// Cuts a text to a precision, counted in characters, and pads it with
    /// spaces to the width.
    pub fn format_string_with_precision(
        &self,
        string: String,
        precision: Option<&CFormatQuantity>,
    ) -> (r: String)
        ensures
            r@ == string_text(
                self@,
                string@,
                match precision {
                    Some(q) => Some(*q),
                    None => None,
                },
            ),
    {
        // truncate if needed
        let string = match precision {
            Some(CFormatQuantity::Amount(precision)) => {
                if string.as_str().unicode_len() > *precision {
                    String::from_str(string.as_str().substring_char(0, *precision))
                } else {
                    string
                }
            },
            _ => string,
        };
        self.fill_string(string, ' ', None)
    }

    /// A text as a string conversion renders it: cut to the precision and
    /// padded with spaces to the width.
    pub fn format_string(&self, string: String) -> (r: String)
        ensures
            r@ == string_text(self@, string@, self.precision),
    {
        self.format_string_with_precision(string, self.precision.as_ref())
    }

    /// A character as a character conversion renders it: padded with spaces
    /// to the width.
    pub fn format_char(&self, ch: char) -> (r: String)
        ensures
            r@ == padded(self.min_field_width, self.flags.left_adjust, seq![ch], ' ', 0),
    {
        let one = CFormatQuantity::Amount(1);
        self.format_string_with_precision(char_string(ch), Some(&one))
    }

    /// Bytes cut to the precision and padded with spaces to the width, both
    /// counted in bytes.
    pub fn format_bytes(&self, bytes: &[u8]) -> (r: Vec<u8>)
        ensures
            r@ == bytes_text(self@, bytes@),
    {
        let kept: usize = match self.precision {
            Some(CFormatQuantity::Amount(precision)) => if bytes.len() > precision {
                precision
            } else {
                bytes.len()
            },
            _ => bytes.len(),
        };
        let fill: usize = match self.min_field_width {
            Some(CFormatQuantity::Amount(width)) => if width > kept {
                width - kept
            } else {
                0
            },
            _ => 0,
        };
        let ghost content = truncated(bytes@, self.precision);
        assert(content =~= bytes@.take(kept as int));
        let mut v: Vec<u8> = Vec::new();
        if !self.flags.left_adjust {
            let mut i: usize = 0;
            while i < fill
                invariant
                    i <= fill,
                    v@ == repeated(0x20u8, i as nat),
                decreases fill - i,
            {
                v.push(0x20u8);
                i = i + 1;
                assert(v@ =~= repeated(0x20u8, i as nat));
            }
        }
        let ghost before = v@;
        let mut k: usize = 0;
        while k < kept
            invariant
                k <= kept <= bytes.len(),
                v@ == before + bytes@.take(k as int),
            decreases kept - k,
        {
            v.push(bytes[k]);
            k = k + 1;
            assert(v@ =~= before + bytes@.take(k as int));
        }
        if self.flags.left_adjust {
            let mut i: usize = 0;
            while i < fill
                invariant
                    i <= fill,
                    v@ == content + repeated(0x20u8, i as nat),
                decreases fill - i,
            {
                v.push(0x20u8);
                i = i + 1;
                assert(v@ =~= content + repeated(0x20u8, i as nat));
            }
        }
        v
    }

    /// An integer as a number conversion renders it: the digits of the
    /// magnitude in the radix, the radix prefix in alternate form, the sign,
    /// and the fill.
    pub fn format_number(&self, num: &BigNumber) -> (r: String)
        requires
            self.format_type is Number,
        ensures
            r@ == number_text(self@, num@),
    {
        let magnitude = num.abs();
        let prefix = if self.flags.alternate_form {
            match self.format_type {
                CFormatType::Number(CNumberType::Octal) => "0o",
                CFormatType::Number(CNumberType::Hex(CFormatCase::Lowercase)) => "0x",
                CFormatType::Number(CNumberType::Hex(CFormatCase::Uppercase)) => "0X",
                _ => "",
            }
        } else {
            ""
        };
        proof {
            reveal_strlit("0o");
            reveal_strlit("0x");
            reveal_strlit("0X");
            reveal_strlit("");
            reveal_strlit("-");
            assert("0o"@ =~= seq!['0', 'o']);
            assert("0x"@ =~= seq!['0', 'x']);
            assert("0X"@ =~= seq!['0', 'X']);
            assert(""@ =~= Seq::<char>::empty());
            assert("-"@ =~= seq!['-']);
        }

        let magnitude_string: String = match self.format_type {
            CFormatType::Number(CNumberType::Octal) => magnitude.to_str_radix(8),
            CFormatType::Number(CNumberType::Hex(CFormatCase::Lowercase)) => magnitude.to_str_radix(
                16,
            ),
            CFormatType::Number(CNumberType::Hex(CFormatCase::Uppercase)) => {
                let result = magnitude.to_str_radix(16);
                to_uppercase(result.as_str())
            },
            _ => magnitude.to_str_radix(10),
        };

        let sign_string = match num.sign() {
            Sign::Minus => "-",
            _ => self.flags.sign_string(),
        };

        self.format_signed(sign_string, prefix, magnitude_string)
    }

    /// Sign, prefix and digits brought to the width. With zero-pad the fill
    /// stands between the prefix and the digits, and is `0` unless the
    /// specifier is left-adjusted as well; without, spaces fill around the
    /// whole.
    pub fn format_signed(
        &self,
        sign_string: &str,
        prefix: &str,
        magnitude_string: String,
    ) -> (r: String)
        ensures
            r@ == signed_text(self@, sign_string@, prefix@, magnitude_string@),
    {
        if self.flags.zero_pad {
            let fill_char = if !self.flags.left_adjust {
                '0'
            } else {
                ' '  // '-' overrides the '0' conversion if both are given
            };
            let signed_prefix = concat(sign_string, prefix);
            let filled = self.fill_string(
                magnitude_string,
                fill_char,
                Some(signed_prefix.as_str().unicode_len()),
            );
            concat(signed_prefix.as_str(), filled.as_str())
        } else {
            let signed = concat(sign_string, prefix);
            let whole = concat(signed.as_str(), magnitude_string.as_str());
            self.fill_string(whole, ' ', None)
        }
    }

    /// The number of digits after the decimal point that a float conversion
    /// asks for: the fixed precision, else six.
    pub fn float_precision(&self) -> (p: usize)
        ensures
            p == float_digits(self@),
    {
        match self.precision {
            Some(CFormatQuantity::Amount(p)) => p,
            _ => 6,
        }
    }

    /// The exponent part of a float in exponent style: `e`, the sign of the
    /// exponent, and its digits, at least two of them.
    pub fn exponent_string(exponent: i32) -> (r: String)
        ensures
            r@ == exponent_text(exponent as int),
    {
        let digits = BigNumber::from_i64(exponent as i64).abs().to_str_radix(10);
        let mut r = char_string('e');
        if exponent < 0 {
            r.push('-');
        } else {
            r.push('+');
        }
        if -10 < exponent && exponent < 10 {
            r.push('0');
        }
        r.append(digits.as_str());
        assert(r@ =~= exponent_text(exponent as int));
        r
    }

    /// The digits of a float with the exponent part, where it has one.
    pub fn float_magnitude_string(magnitude: &str, exponent: Option<i32>) -> (r: String)
        ensures
            r@ == float_magnitude(magnitude@, exponent),
    {
        match exponent {
            Some(e) => {
                let suffix = CFormatSpec::exponent_string(e);
                concat(magnitude, suffix.as_str())
            },
            None => String::from_str(magnitude),
        }
    }

    /// A float as a float conversion renders it, given whether its sign bit
    /// is clear and the digits of its magnitude: the sign and the fill.
    pub fn format_float(&self, sign_positive: bool, magnitude_string: String) -> (r: String)
        ensures
            r@ == float_text(self@, sign_positive, magnitude_string@),
    {
        proof {
            reveal_strlit("-");
            reveal_strlit("");
            assert(""@ =~= Seq::<char>::empty());
            assert("-"@ =~= seq!['-']);
        }
        let sign_string = if sign_positive {
            self.flags.sign_string()
        } else {
            "-"
        };
        self.format_signed(sign_string, "", magnitude_string)
    }
}

} // verus!
