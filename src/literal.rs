//! Reading numeric literals, and writing integers back as literals.

use vstd::prelude::*;

use crate::integer::{
    digits_from, integer_of, lemma_integer_of, lemma_nat_digits_le, lemma_seq_of_digits,
    nat_digits_le, push_digit_bytes, seq_of_digits, seq_value, BigInteger,
};

verus! {

/// The integer that `num_bigint` reads from a literal's text in base ten, if it reads one.
pub uninterp spec fn big_int_literal(s: Seq<char>) -> Option<int>;

/// The value of an integer literal, when it is one.
pub open spec fn int_literal(s: Seq<char>) -> Option<BigInteger> {
    match big_int_literal(s) {
        Some(v) => Some(integer_of(v)),
        None => None,
    }
}

/// The absolute value of `v`.
pub open spec fn magnitude(v: int) -> nat {
    (if v < 0 { -v } else { v }) as nat
}

/// Relies on `num_bigint::BigInt::parse_bytes` in base ten, and on
/// `BigInt::to_radix_le` in base ten, which gives the sign and the digits of
/// the magnitude, least significant first, without trailing zeros but for zero.
#[verifier::external_body]
fn read_int_literal(raw: &String) -> (r: Option<(bool, Vec<u8>)>)
    ensures
        r is Some <==> big_int_literal(raw@) is Some,
        r matches Some(p) ==> p.0 == (big_int_literal(raw@)->0 < 0) && p.1@ == nat_digits_le(
            magnitude(big_int_literal(raw@)->0),
        ),
{
    match num_bigint::BigInt::parse_bytes(raw.as_bytes(), 10) {
        Some(value) => {
            let (sign, digits) = value.to_radix_le(10);
            match sign {
                num_bigint::Sign::Minus => Some((true, digits)),
                _ => Some((false, digits)),
            }
        },
        None => None,
    }
}

/// Read an integer literal of any size.
pub fn parse_int_literal(raw: &String) -> (r: Option<BigInteger>)
    ensures
        r == int_literal(raw@),
        r matches Some(k) ==> k.value() == big_int_literal(raw@)->0,
{
    match read_int_literal(raw) {
        Some((negative, digits)) => {
            let ghost v = big_int_literal(raw@)->0;
            proof {
                lemma_nat_digits_le(magnitude(v));
                lemma_integer_of(v);
                assert(digits@.skip(0) =~= digits@);
            }
            let ds = digits_from(&digits, 0);
            Some(BigInteger { negative, digits: ds })
        },
        None => None,
    }
}

/// The integer with `negative` as its sign and `n` as its magnitude.
pub open spec fn signed(negative: bool, n: nat) -> int {
    if negative {
        -(n as int)
    } else {
        n as int
    }
}

pub open spec fn digit_char(d: nat) -> char {
    if d == 0 {
        '0'
    } else if d == 1 {
        '1'
    } else if d == 2 {
        '2'
    } else if d == 3 {
        '3'
    } else if d == 4 {
        '4'
    } else if d == 5 {
        '5'
    } else if d == 6 {
        '6'
    } else if d == 7 {
        '7'
    } else if d == 8 {
        '8'
    } else {
        '9'
    }
}

/// The digits of `n` in base ten, most significant first, without leading zeros.
pub open spec fn nat_decimal(n: nat) -> Seq<char>
    decreases n,
{
    if n < 10 {
        seq![digit_char(n)]
    } else {
        nat_decimal(n / 10).push(digit_char(n % 10))
    }
}

/// An integer in base ten, with a leading `-` when negative.
pub open spec fn int_decimal(v: int) -> Seq<char> {
    if v < 0 {
        seq!['-'] + nat_decimal((-v) as nat)
    } else {
        nat_decimal(v as nat)
    }
}

/// Relies on `num_bigint::BigInt::from_radix_le` in base ten, which reads
/// digits below ten, least significant first, and on the `Display` impl of
/// `BigInt` (through `ToString`): the value in base ten, with a leading `-`
/// when negative.
#[verifier::external_body]
fn decimal_text(negative: bool, digits: &Vec<u8>) -> (r: String)
    requires
        forall|i: int| 0 <= i < digits@.len() ==> #[trigger] digits@[i] < 10,
    ensures
        r@ == int_decimal(signed(negative, seq_value(digits@))),
{
    let sign = if negative {
        num_bigint::Sign::Minus
    } else {
        num_bigint::Sign::Plus
    };
    match num_bigint::BigInt::from_radix_le(sign, digits, 10) {
        Some(value) => value.to_string(),
        None => String::new(),
    }
}

/// An integer in base ten, with a leading `-` when negative.
pub fn decimal_string(k: &BigInteger) -> (r: String)
    ensures
        r@ == int_decimal(k.value()),
{
    let mut bytes: Vec<u8> = Vec::new();
    push_digit_bytes(&k.digits, &mut bytes);
    proof {
        lemma_seq_of_digits(k.digits);
        assert(bytes@ =~= seq_of_digits(k.digits));
    }
    decimal_text(k.negative, &bytes)
}

} // verus!
