//! Integers of any size, as a sign and decimal digits.

use vstd::prelude::*;

verus! {

/// A decimal digit.
#[derive(Debug, Copy, Clone, PartialEq, Eq, Structural)]
pub enum Digit {
    D0,
    D1,
    D2,
    D3,
    D4,
    D5,
    D6,
    D7,
    D8,
    D9,
}

pub open spec fn digit_value(d: Digit) -> nat {
    match d {
        Digit::D0 => 0,
        Digit::D1 => 1,
        Digit::D2 => 2,
        Digit::D3 => 3,
        Digit::D4 => 4,
        Digit::D5 => 5,
        Digit::D6 => 6,
        Digit::D7 => 7,
        Digit::D8 => 8,
        Digit::D9 => 9,
    }
}

pub open spec fn digit_of(b: u8) -> Digit {
    if b == 0 {
        Digit::D0
    } else if b == 1 {
        Digit::D1
    } else if b == 2 {
        Digit::D2
    } else if b == 3 {
        Digit::D3
    } else if b == 4 {
        Digit::D4
    } else if b == 5 {
        Digit::D5
    } else if b == 6 {
        Digit::D6
    } else if b == 7 {
        Digit::D7
    } else if b == 8 {
        Digit::D8
    } else {
        Digit::D9
    }
}

impl Digit {
    pub fn from_byte(b: u8) -> (r: Digit)
        requires
            b < 10,
        ensures
            r == digit_of(b),
            digit_value(r) == b,
    {
        if b == 0 {
            Digit::D0
        } else if b == 1 {
            Digit::D1
        } else if b == 2 {
            Digit::D2
        } else if b == 3 {
            Digit::D3
        } else if b == 4 {
            Digit::D4
        } else if b == 5 {
            Digit::D5
        } else if b == 6 {
            Digit::D6
        } else if b == 7 {
            Digit::D7
        } else if b == 8 {
            Digit::D8
        } else {
            Digit::D9
        }
    }

    pub fn value(&self) -> (r: u8)
        ensures
            r == digit_value(*self),
    {
        match self {
            Digit::D0 => 0,
            Digit::D1 => 1,
            Digit::D2 => 2,
            Digit::D3 => 3,
            Digit::D4 => 4,
            Digit::D5 => 5,
            Digit::D6 => 6,
            Digit::D7 => 7,
            Digit::D8 => 8,
            Digit::D9 => 9,
        }
    }
}

/// Decimal digits, least significant first.
#[derive(Debug, PartialEq, Eq)]
pub enum Digits {
    Nil,
    Cons(Digit, Box<Digits>),
}

/// The number that digits stand for.
pub open spec fn digits_value(ds: Digits) -> nat
    decreases ds,
{
    match ds {
        Digits::Nil => 0,
        Digits::Cons(d, rest) => digit_value(d) + 10 * digits_value(*rest),
    }
}

/// The digits of a sequence of bytes, each below ten, in the same order.
pub open spec fn digits_of_seq(s: Seq<u8>) -> Digits
    decreases s.len(),
{
    if s.len() == 0 {
        Digits::Nil
    } else {
        Digits::Cons(digit_of(s[0]), Box::new(digits_of_seq(s.drop_first())))
    }
}

/// The bytes of digits, in the same order.
pub open spec fn seq_of_digits(ds: Digits) -> Seq<u8>
    decreases ds,
{
    match ds {
        Digits::Nil => Seq::empty(),
        Digits::Cons(d, rest) => seq![digit_value(d) as u8] + seq_of_digits(*rest),
    }
}

/// The decimal digits of `n`, least significant first, without trailing zeros
/// but for zero itself.
pub open spec fn nat_digits_le(n: nat) -> Seq<u8>
    decreases n,
{
    if n < 10 {
        seq![n as u8]
    } else {
        seq![(n % 10) as u8] + nat_digits_le(n / 10)
    }
}

/// The number that little-endian decimal bytes stand for.
pub open spec fn seq_value(s: Seq<u8>) -> nat
    decreases s.len(),
{
    if s.len() == 0 {
        0
    } else {
        s[0] as nat + 10 * seq_value(s.drop_first())
    }
}

/// An integer of any size.
#[derive(Debug, PartialEq, Eq)]
pub struct BigInteger {
    pub negative: bool,
    pub digits: Digits,
}

impl BigInteger {
    pub open spec fn value(self) -> int {
        if self.negative {
            -(digits_value(self.digits) as int)
        } else {
            digits_value(self.digits) as int
        }
    }
}

/// The canonical form of `v`.
pub open spec fn integer_of(v: int) -> BigInteger {
    BigInteger {
        negative: v < 0,
        digits: digits_of_seq(nat_digits_le((if v < 0 { -v } else { v }) as nat)),
    }
}

pub proof fn lemma_nat_digits_le(n: nat)
    ensures
        forall|i: int| 0 <= i < nat_digits_le(n).len() ==> #[trigger] nat_digits_le(n)[i] < 10,
        seq_value(nat_digits_le(n)) == n,
    decreases n,
{
    if n >= 10 {
        lemma_nat_digits_le(n / 10);
        let s = nat_digits_le(n);
        assert(s.drop_first() =~= nat_digits_le(n / 10));
        assert(n == 10 * (n / 10) + n % 10) by (nonlinear_arith);
        assert(s[0] as nat == n % 10);
        assert forall|i: int| 0 <= i < s.len() implies #[trigger] s[i] < 10 by {
            if i > 0 {
                assert(s[i] == nat_digits_le(n / 10)[i - 1]);
            }
        }
    } else {
        assert(nat_digits_le(n).drop_first().len() == 0);
        assert(seq_value(nat_digits_le(n).drop_first()) == 0);
    }
}

pub proof fn lemma_digits_of_seq(s: Seq<u8>)
    requires
        forall|i: int| 0 <= i < s.len() ==> #[trigger] s[i] < 10,
    ensures
        digits_value(digits_of_seq(s)) == seq_value(s),
        seq_of_digits(digits_of_seq(s)) == s,
    decreases s.len(),
{
    if s.len() > 0 {
        let t = s.drop_first();
        assert forall|i: int| 0 <= i < t.len() implies #[trigger] t[i] < 10 by {
            assert(t[i] == s[i + 1]);
        }
        lemma_digits_of_seq(t);
        assert(s[0] < 10);
        assert(digit_value(digit_of(s[0])) == s[0]);
        assert(seq_of_digits(digits_of_seq(s)) =~= s);
    }
}

/// The canonical form of `v` has the value `v`.
pub proof fn lemma_integer_of(v: int)
    ensures
        integer_of(v).value() == v,
{
    let n = (if v < 0 { -v } else { v }) as nat;
    lemma_nat_digits_le(n);
    lemma_digits_of_seq(nat_digits_le(n));
}

/// Digits of the bytes `s[i..]`.
pub fn digits_from(s: &Vec<u8>, i: usize) -> (r: Digits)
    requires
        i <= s@.len(),
        forall|j: int| 0 <= j < s@.len() ==> #[trigger] s@[j] < 10,
    ensures
        r == digits_of_seq(s@.skip(i as int)),
    decreases s@.len() - i,
{
    if i == s.len() {
        assert(s@.skip(i as int).len() == 0);
        Digits::Nil
    } else {
        let d = Digit::from_byte(s[i]);
        let rest = digits_from(s, i + 1);
        assert(s@.skip(i as int).drop_first() =~= s@.skip(i + 1));
        Digits::Cons(d, Box::new(rest))
    }
}

/// Append the bytes of `ds` to `out`.
pub fn push_digit_bytes(ds: &Digits, out: &mut Vec<u8>)
    ensures
        final(out)@ == old(out)@ + seq_of_digits(*ds),
    decreases ds,
{
    match ds {
        Digits::Nil => {
            assert(out@ + seq_of_digits(*ds) =~= out@);
        },
        Digits::Cons(d, rest) => {
            let ghost start = out@;
            out.push(d.value());
            push_digit_bytes(rest, out);
            assert(start + seq_of_digits(*ds) =~= start.push(digit_value(*d) as u8)
                + seq_of_digits(**rest));
        },
    }
}

pub proof fn lemma_seq_of_digits(ds: Digits)
    ensures
        forall|i: int| 0 <= i < seq_of_digits(ds).len() ==> #[trigger] seq_of_digits(ds)[i] < 10,
        seq_value(seq_of_digits(ds)) == digits_value(ds),
    decreases ds,
{
    if let Digits::Cons(d, rest) = ds {
        lemma_seq_of_digits(*rest);
        let s = seq_of_digits(ds);
        assert(s.drop_first() =~= seq_of_digits(*rest));
        assert forall|i: int| 0 <= i < s.len() implies #[trigger] s[i] < 10 by {
            if i > 0 {
                assert(s[i] == seq_of_digits(*rest)[i - 1]);
            }
        }
    }
}

fn digits_are_zero(ds: &Digits) -> (r: bool)
    ensures
        r == (digits_value(*ds) == 0),
    decreases ds,
{
    match ds {
        Digits::Nil => true,
        Digits::Cons(d, rest) => d.value() == 0 && digits_are_zero(rest),
    }
}

/// The sign of `a - b`.
fn compare_digits(a: &Digits, b: &Digits) -> (r: i8)
    ensures
        r == 0 <==> digits_value(*a) == digits_value(*b),
        r < 0 <==> digits_value(*a) < digits_value(*b),
    decreases a,
{
    match (a, b) {
        (Digits::Nil, Digits::Nil) => 0,
        (Digits::Nil, _) => if digits_are_zero(b) {
            0
        } else {
            -1
        },
        (_, Digits::Nil) => if digits_are_zero(a) {
            0
        } else {
            1
        },
        (Digits::Cons(x, ra), Digits::Cons(y, rb)) => {
            let c = compare_digits(ra, rb);
            if c != 0 {
                c
            } else {
                let xv = x.value();
                let yv = y.value();
                if xv < yv {
                    -1
                } else if xv > yv {
                    1
                } else {
                    0
                }
            }
        },
    }
}

impl BigInteger {
    /// The sign of `self - other`.
    pub fn compare(&self, other: &BigInteger) -> (r: i8)
        ensures
            r == 0 <==> self.value() == other.value(),
            r < 0 <==> self.value() < other.value(),
    {
        if !self.negative && !other.negative {
            compare_digits(&self.digits, &other.digits)
        } else if self.negative && other.negative {
            let c = compare_digits(&self.digits, &other.digits);
            if c < 0 {
                1
            } else if c > 0 {
                -1
            } else {
                0
            }
        } else if digits_are_zero(&self.digits) && digits_are_zero(&other.digits) {
            0
        } else if self.negative {
            -1
        } else {
            1
        }
    }

    pub fn copy(&self) -> (r: BigInteger)
        ensures
            r == *self,
    {
        BigInteger { negative: self.negative, digits: copy_digits(&self.digits) }
    }
}

fn copy_digits(ds: &Digits) -> (r: Digits)
    ensures
        r == *ds,
    decreases ds,
{
    match ds {
        Digits::Nil => Digits::Nil,
        Digits::Cons(d, rest) => Digits::Cons(*d, Box::new(copy_digits(rest))),
    }
}

} // verus!
