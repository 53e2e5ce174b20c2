//! Integers of any size, held as a sign and a magnitude in base 2^32, and
//! their digits in a radix.

use vstd::prelude::*;
use vstd::arithmetic::div_mod::lemma_div_decreases;
use vstd::string::StringExecFns;
use num_bigint::BigUint;
use num_traits::cast::ToPrimitive;

verus! {

/// The sign of a [`BigNumber`].
#[derive(Debug, PartialEq, Eq, Structural, Clone, Copy)]
pub enum Sign {
    Minus,
    NoSign,
    Plus,
}

/// An integer of any size: a sign and the digits of the magnitude in base
/// 2^32, least significant first. With `NoSign` the number is zero whatever
/// the digits are.
#[derive(Debug, PartialEq, Eq, Clone)]
pub struct BigNumber {
    pub sign: Sign,
    pub magnitude: Vec<u32>,
}

/// The number that digits in base 2^32 write, least significant first.
pub open spec fn limbs_value(limbs: Seq<u32>) -> nat
    decreases limbs.len(),
{
    if limbs.len() == 0 {
        0
    } else {
        limbs[0] as nat + 0x1_0000_0000 * limbs_value(limbs.drop_first())
    }
}

/// The character that writes the digit `d`: `0` to `9`, then `a` to `z`.
pub open spec fn digit_char(d: nat) -> char {
    if d < 10 {
        ('0' as nat + d) as char
    } else {
        ('a' as nat + (d - 10)) as char
    }
}

/// A number written in a radix from 2 to 36, most significant digit first,
/// with no leading zero; zero is written `0`.
pub open spec fn radix_text(n: nat, radix: nat) -> Seq<char>
    decreases n,
{
    if radix < 2 || n < radix {
        seq![digit_char(n)]
    } else {
        proof {
            lemma_div_decreases(n as int, radix as int);
        }
        radix_text(n / radix, radix).push(digit_char(n % radix))
    }
}

/// An integer written in a radix, with `-` in front where it is negative.
pub open spec fn signed_radix_text(v: int, radix: nat) -> Seq<char> {
    if v < 0 {
        seq!['-'] + radix_text((-v) as nat, radix)
    } else {
        radix_text(v as nat, radix)
    }
}

/// `BigUint::to_str_radix` of num-bigint, on the number built by
/// `BigUint::from_slice`: the digits of the magnitude in the radix, most
/// significant first, in lower case and with no leading zero.
#[verifier::external_body]
fn magnitude_to_str_radix(limbs: &Vec<u32>, radix: u32) -> (text: String)
    requires
        2 <= radix <= 36,
    ensures
        text@ == radix_text(limbs_value(limbs@), radix as nat),
{
    BigUint::from_slice(limbs).to_str_radix(radix)
}

/// `ToPrimitive::to_u32` of num-traits, on the number built by
/// `BigUint::from_slice`: the magnitude where it fits 32 bits.
#[verifier::external_body]
fn magnitude_to_u32(limbs: &Vec<u32>) -> (r: Option<u32>)
    ensures
        r == (if limbs_value(limbs@) <= u32::MAX {
            Some(limbs_value(limbs@) as u32)
        } else {
            None
        }),
{
    BigUint::from_slice(limbs).to_u32()
}

/// `ToPrimitive::to_u64` of num-traits, on the number built by
/// `BigUint::from_slice`: the magnitude where it fits 64 bits.
#[verifier::external_body]
fn magnitude_to_u64(limbs: &Vec<u32>) -> (r: Option<u64>)
    ensures
        r == (if limbs_value(limbs@) <= u64::MAX {
            Some(limbs_value(limbs@) as u64)
        } else {
            None
        }),
{
    BigUint::from_slice(limbs).to_u64()
}

/// The digits of zero are worth zero.
pub proof fn lemma_zero_limbs(limbs: Seq<u32>)
    ensures
        (limbs_value(limbs) == 0) == (forall|i: int| 0 <= i < limbs.len() ==> limbs[i] == 0),
    decreases limbs.len(),
{
    if limbs.len() > 0 {
        let rest = limbs.drop_first();
        lemma_zero_limbs(rest);
        if limbs_value(limbs) == 0 {
            assert(limbs[0] == 0 && limbs_value(rest) == 0);
            assert forall|i: int| 0 <= i < limbs.len() implies limbs[i] == 0 by {
                if i > 0 {
                    assert(limbs[i] == rest[i - 1]);
                }
            }
        } else if limbs[0] == 0 {
            assert(limbs_value(rest) != 0);
            let i = choose|i: int| 0 <= i < rest.len() && rest[i] != 0;
            assert(limbs[i + 1] == rest[i]);
        }
    }
}

impl View for BigNumber {
    type V = int;

    open spec fn view(&self) -> int {
        match self.sign {
            Sign::NoSign => 0,
            Sign::Plus => limbs_value(self.magnitude@) as int,
            Sign::Minus => -(limbs_value(self.magnitude@) as int),
        }
    }
}

impl BigNumber {
    /// The number with the given sign and magnitude.
    pub fn new(sign: Sign, magnitude: Vec<u32>) -> (n: BigNumber)
        ensures
            n.sign == sign,
            n.magnitude == magnitude,
    {
        BigNumber { sign, magnitude }
    }

    /// The number that a machine integer holds.
    pub fn from_i64(v: i64) -> (n: BigNumber)
        ensures
            n@ == v,
    {
        let sign = if v < 0 {
            Sign::Minus
        } else if v == 0 {
            Sign::NoSign
        } else {
            Sign::Plus
        };
        let m: u64 = if v >= 0 {
            v as u64
        } else if v == i64::MIN {
            0x8000_0000_0000_0000
        } else {
            (-v) as u64
        };
        let low: u32 = (m % 0x1_0000_0000) as u32;
        let high: u32 = (m / 0x1_0000_0000) as u32;
        let mut magnitude: Vec<u32> = Vec::new();
        magnitude.push(low);
        magnitude.push(high);
        proof {
            reveal_with_fuel(limbs_value, 3);
            assert(magnitude@.drop_first() =~= seq![high]);
            assert(magnitude@.drop_first().drop_first() =~= Seq::<u32>::empty());
        }
        BigNumber { sign, magnitude }
    }

    /// The number that an unsigned machine integer holds.
    pub fn from_u64(v: u64) -> (n: BigNumber)
        ensures
            n@ == v,
    {
        let low: u32 = (v % 0x1_0000_0000) as u32;
        let high: u32 = (v / 0x1_0000_0000) as u32;
        let mut magnitude: Vec<u32> = Vec::new();
        magnitude.push(low);
        magnitude.push(high);
        proof {
            reveal_with_fuel(limbs_value, 3);
            assert(magnitude@.drop_first() =~= seq![high]);
            assert(magnitude@.drop_first().drop_first() =~= Seq::<u32>::empty());
        }
        BigNumber { sign: Sign::Plus, magnitude }
    }

    /// Whether every digit of the magnitude is zero.
    fn magnitude_is_zero(&self) -> (b: bool)
        ensures
            b == (limbs_value(self.magnitude@) == 0),
    {
        let mut i: usize = 0;
        while i < self.magnitude.len()
            invariant
                i <= self.magnitude.len(),
                forall|j: int| 0 <= j < i ==> self.magnitude@[j] == 0,
            decreases self.magnitude.len() - i,
        {
            if self.magnitude[i] != 0 {
                proof {
                    lemma_zero_limbs(self.magnitude@);
                }
                return false;
            }
            i = i + 1;
        }
        proof {
            lemma_zero_limbs(self.magnitude@);
        }
        true
    }

    /// The sign of the number itself: `NoSign` exactly for zero.
    pub fn sign(&self) -> (s: Sign)
        ensures
            s == (if self@ < 0 {
                Sign::Minus
            } else if self@ == 0 {
                Sign::NoSign
            } else {
                Sign::Plus
            }),
    {
        match self.sign {
            Sign::NoSign => Sign::NoSign,
            sign => if self.magnitude_is_zero() {
                Sign::NoSign
            } else {
                sign
            },
        }
    }

    /// The absolute value.
    pub fn abs(&self) -> (r: BigNumber)
        ensures
            r@ == (if self@ < 0 {
                -self@
            } else {
                self@
            }),
    {
        match self.sign {
            Sign::NoSign => BigNumber { sign: Sign::NoSign, magnitude: Vec::new() },
            _ => BigNumber { sign: Sign::Plus, magnitude: self.magnitude.clone() },
        }
    }

    /// The number written in a radix from 2 to 36, in lower case, with `-` in
    /// front where it is negative.
    pub fn to_str_radix(&self, radix: u32) -> (text: String)
        requires
            2 <= radix <= 36,
        ensures
            text@ == signed_radix_text(self@, radix as nat),
    {
        match self.sign() {
            Sign::NoSign => {
                let zero: Vec<u32> = Vec::new();
                magnitude_to_str_radix(&zero, radix)
            },
            Sign::Plus => magnitude_to_str_radix(&self.magnitude, radix),
            Sign::Minus => {
                let mut text = String::new();
                text.push('-');
                let digits = magnitude_to_str_radix(&self.magnitude, radix);
                text.append(digits.as_str());
                assert(text@ =~= seq!['-'] + digits@);
                text
            },
        }
    }

    /// The number as 32 unsigned bits, where it fits.
    pub fn to_u32(&self) -> (r: Option<u32>)
        ensures
            r == (if 0 <= self@ <= u32::MAX {
                Some(self@ as u32)
            } else {
                None
            }),
    {
        match self.sign() {
            Sign::NoSign => Some(0),
            Sign::Plus => magnitude_to_u32(&self.magnitude),
            Sign::Minus => None,
        }
    }

    /// The number as a signed size, where it fits.
    pub fn to_isize(&self) -> (r: Option<isize>)
        ensures
            r == (if isize::MIN <= self@ <= isize::MAX {
                Some(self@ as isize)
            } else {
                None
            }),
    {
        match self.sign() {
            Sign::NoSign => Some(0),
            Sign::Plus => match magnitude_to_u64(&self.magnitude) {
                Some(m) => if m <= isize::MAX as u64 {
                    Some(m as isize)
                } else {
                    None
                },
                None => None,
            },
            Sign::Minus => match magnitude_to_u64(&self.magnitude) {
                Some(m) => if m <= isize::MAX as u64 {
                    Some(-(m as isize))
                } else if m == isize::MAX as u64 + 1 {
                    Some(isize::MIN)
                } else {
                    None
                },
                None => None,
            },
        }
    }
}

} // verus!
