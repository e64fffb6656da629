//! Decimal numbers held as the raw parts of `num_bigfloat::BigFloat`.
//!
//! All arithmetic is done by `num_bigfloat`. A result that is not finite
//! (an overflow, a division by zero, a square root of a negative number)
//! is reported as `None`.
use num_bigfloat::BigFloat;
use vstd::arithmetic::power::pow;
use vstd::prelude::*;

verus! {

/// A finite decimal number: a mantissa of ten base-10000 digits (least
/// significant first), the count of its decimal positions, a sign (`1` or
/// `-1`) and a decimal exponent.
///
/// Every value is well formed (`wf`): the form in which `num_bigfloat`
/// hands numbers out and takes them back.
#[derive(Clone, Copy, Debug, PartialEq)]
pub struct Decimal {
    pub(crate) mantissa: [i16; 10],
    pub(crate) len: i16,
    pub(crate) sign: i8,
    pub(crate) exponent: i8,
}

/// What `BigFloat::add` gives on two finite values.
pub uninterp spec fn add_of(a: Decimal, b: Decimal) -> Option<Decimal>;

/// What `BigFloat::sub` gives on two finite values.
pub uninterp spec fn sub_of(a: Decimal, b: Decimal) -> Option<Decimal>;

/// What `BigFloat::mul` gives on two finite values.
pub uninterp spec fn mul_of(a: Decimal, b: Decimal) -> Option<Decimal>;

/// What `BigFloat::div` gives on two finite values.
pub uninterp spec fn div_of(a: Decimal, b: Decimal) -> Option<Decimal>;

/// What `BigFloat::pow` gives on two finite values.
pub uninterp spec fn pow_of(a: Decimal, b: Decimal) -> Option<Decimal>;

/// What `BigFloat::sqrt` gives on a finite value.
pub uninterp spec fn sqrt_of(a: Decimal) -> Option<Decimal>;


/// Base-10000 digit `k` of `v`, least significant first.
pub open spec fn base_digit(v: u128, k: nat) -> i16 {
    ((v as nat / pow(10000, k) as nat) % 10000) as i16
}

/// Decimal positions in one base-10000 part; none for zero.
pub open spec fn part_digits(x: i16) -> int {
    if x >= 1000 {
        4
    } else if x >= 100 {
        3
    } else if x >= 10 {
        2
    } else if x >= 1 {
        1
    } else {
        0
    }
}

/// Decimal positions of a mantissa, leading zeros left out (what
/// `num_digits` counts in `num_bigfloat`).
pub open spec fn mantissa_digits(m: [i16; 10]) -> int {
    if m[9] != 0 {
        36 + part_digits(m[9])
    } else if m[8] != 0 {
        32 + part_digits(m[8])
    } else if m[7] != 0 {
        28 + part_digits(m[7])
    } else if m[6] != 0 {
        24 + part_digits(m[6])
    } else if m[5] != 0 {
        20 + part_digits(m[5])
    } else if m[4] != 0 {
        16 + part_digits(m[4])
    } else if m[3] != 0 {
        12 + part_digits(m[3])
    } else if m[2] != 0 {
        8 + part_digits(m[2])
    } else if m[1] != 0 {
        4 + part_digits(m[1])
    } else if m[0] != 0 {
        0 + part_digits(m[0])
    } else {
        0
    }
}

/// Every part of the mantissa is a base-10000 digit.
pub open spec fn parts_in_range(m: [i16; 10]) -> bool {
    0 <= m[0] <= 9999 && 0 <= m[1] <= 9999 && 0 <= m[2] <= 9999 && 0 <= m[3] <= 9999 && 0 <= m[4] <= 9999 && 0 <= m[5] <= 9999 && 0 <= m[6] <= 9999 && 0 <= m[7] <= 9999 && 0 <= m[8] <= 9999 && 0 <= m[9] <= 9999
}

/// Raw parts in the form that `num_bigfloat` produces and accepts: base-10000
/// digits, a length that counts them, and a sign of `1` or `-1`.
pub open spec fn raw_parts_wf(m: [i16; 10], len: i16, sign: i8) -> bool {
    &&& parts_in_range(m)
    &&& len == mantissa_digits(m)
    &&& sign == 1 || sign == -1
}

impl Decimal {
    /// Zero, as `num_bigfloat::ZERO` holds it.
    pub open(crate) spec fn spec_zero() -> Decimal {
        Decimal { mantissa: [0, 0, 0, 0, 0, 0, 0, 0, 0, 0], len: 0, sign: 1, exponent: 0 }
    }

    /// One, as `num_bigfloat::ONE` holds it.
    pub open(crate) spec fn spec_one() -> Decimal {
        Decimal { mantissa: [0, 0, 0, 0, 0, 0, 0, 0, 0, 1000], len: 40, sign: 1, exponent: -39i8 }
    }

    /// Two, as `num_bigfloat::TWO` holds it.
    pub open(crate) spec fn spec_two() -> Decimal {
        Decimal { mantissa: [0, 0, 0, 0, 0, 0, 0, 0, 0, 2000], len: 40, sign: 1, exponent: -39i8 }
    }

    pub open(crate) spec fn spec_raw_parts(self) -> ([i16; 10], i16, i8, i8) {
        (self.mantissa, self.len, self.sign, self.exponent)
    }

    /// The integer `v`, as `BigFloat::from_u128` holds it: its base-10000
    /// digits, the count of their decimal positions, a positive sign,
    /// exponent zero.
    pub open(crate) spec fn spec_from_u128(v: u128) -> Decimal {
        Decimal {
            mantissa: [
                base_digit(v, 0),
                base_digit(v, 1),
                base_digit(v, 2),
                base_digit(v, 3),
                base_digit(v, 4),
                base_digit(v, 5),
                base_digit(v, 6),
                base_digit(v, 7),
                base_digit(v, 8),
                base_digit(v, 9),
            ],
            len: mantissa_digits(
                [
                    base_digit(v, 0),
                    base_digit(v, 1),
                    base_digit(v, 2),
                    base_digit(v, 3),
                    base_digit(v, 4),
                    base_digit(v, 5),
                    base_digit(v, 6),
                    base_digit(v, 7),
                    base_digit(v, 8),
                    base_digit(v, 9),
                ],
            ) as i16,
            sign: 1,
            exponent: 0,
        }
    }

    pub open(crate) spec fn wf(self) -> bool {
        raw_parts_wf(self.mantissa, self.len, self.sign)
    }

    #[verifier::type_invariant]
    spec fn well_formed(self) -> bool {
        self.wf()
    }

    /// Zero: a mantissa without decimal positions.
    pub open(crate) spec fn spec_is_zero(self) -> bool {
        self.len == 0
    }

    /// Greater than zero.
    pub open(crate) spec fn spec_is_positive(self) -> bool {
        self.sign == 1 && self.len != 0
    }

    pub fn zero() -> (r: Decimal)
        ensures
            r == Decimal::spec_zero(),
    {
        Decimal { mantissa: [0, 0, 0, 0, 0, 0, 0, 0, 0, 0], len: 0, sign: 1, exponent: 0 }
    }

    pub fn one() -> (r: Decimal)
        ensures
            r == Decimal::spec_one(),
    {
        Decimal { mantissa: [0, 0, 0, 0, 0, 0, 0, 0, 0, 1000], len: 40, sign: 1, exponent: -39 }
    }

    pub fn two() -> (r: Decimal)
        ensures
            r == Decimal::spec_two(),
    {
        Decimal { mantissa: [0, 0, 0, 0, 0, 0, 0, 0, 0, 2000], len: 40, sign: 1, exponent: -39 }
    }

    /// Whether the number is zero (`BigFloat::is_zero`).
    pub fn is_zero(&self) -> (r: bool)
        ensures
            r == self.spec_is_zero(),
    {
        self.len == 0
    }

    /// Whether the number is greater than zero.
    pub fn is_positive(&self) -> (r: bool)
        ensures
            r == self.spec_is_positive(),
    {
        self.sign == 1 && self.len != 0
    }

    /// The raw parts: mantissa, decimal positions, sign and exponent, in the
    /// order that `BigFloat::from_raw_parts` takes them.
    pub fn to_raw_parts(&self) -> (r: ([i16; 10], i16, i8, i8))
        ensures
            r == self.spec_raw_parts(),
    {
        (self.mantissa, self.len, self.sign, self.exponent)
    }

    /// The number of raw parts already known to be well formed.
    pub(crate) fn from_wf_parts(m: [i16; 10], len: i16, sign: i8, exponent: i8) -> (r: Decimal)
        requires
            raw_parts_wf(m, len, sign),
        ensures
            r == (Decimal { mantissa: m, len, sign, exponent }),
    {
        Decimal { mantissa: m, len, sign, exponent }
    }

    /// The number of the given raw parts, in the order that
    /// `BigFloat::to_raw_parts` gives them; `None` where they are not in the
    /// form that `num_bigfloat` produces.
    pub fn from_raw_parts(m: [i16; 10], len: i16, sign: i8, exponent: i8) -> (r: Option<Decimal>)
        ensures
            r is Some <==> raw_parts_wf(m, len, sign),
            r matches Some(d) ==> d.spec_raw_parts() == (m, len, sign, exponent),
    {
        if !(0 <= m[0] && m[0] <= 9999 && 0 <= m[1] && m[1] <= 9999 && 0 <= m[2] && m[2] <= 9999 && 0 <= m[3] && m[3] <= 9999 && 0 <= m[4] && m[4] <= 9999 && 0 <= m[5] && m[5] <= 9999 && 0 <= m[6] && m[6] <= 9999 && 0 <= m[7] && m[7] <= 9999 && 0 <= m[8] && m[8] <= 9999 && 0 <= m[9] && m[9] <= 9999) {
            return None;
        }
        let digits = if m[9] != 0 {
            36 + part_len(m[9])
        } else if m[8] != 0 {
            32 + part_len(m[8])
        } else if m[7] != 0 {
            28 + part_len(m[7])
        } else if m[6] != 0 {
            24 + part_len(m[6])
        } else if m[5] != 0 {
            20 + part_len(m[5])
        } else if m[4] != 0 {
            16 + part_len(m[4])
        } else if m[3] != 0 {
            12 + part_len(m[3])
        } else if m[2] != 0 {
            8 + part_len(m[2])
        } else if m[1] != 0 {
            4 + part_len(m[1])
        } else if m[0] != 0 {
            0 + part_len(m[0])
        } else {
            0
        };
        if len == digits && (sign == 1 || sign == -1) {
            Some(Decimal { mantissa: m, len, sign, exponent })
        } else {
            None
        }
    }

    /// The integer `v` as a decimal number.
    pub fn from_u128(v: u128) -> (r: Decimal)
        ensures
            r == Decimal::spec_from_u128(v),
    {
        decimal_from_u128(v)
    }

    pub fn add(&self, other: &Decimal) -> (r: Option<Decimal>)
        ensures
            r == add_of(*self, *other),
            self.spec_is_zero() && other.spec_is_zero() ==> r == Some(Decimal::spec_zero()),
    {
        proof {
            use_type_invariant(self);
            use_type_invariant(other);
        }
        decimal_add(self, other)
    }

    pub fn sub(&self, other: &Decimal) -> (r: Option<Decimal>)
        ensures
            r == sub_of(*self, *other),
            *self == *other ==> r == Some(Decimal::spec_zero()),
    {
        proof {
            use_type_invariant(self);
            use_type_invariant(other);
        }
        decimal_sub(self, other)
    }

    pub fn mul(&self, other: &Decimal) -> (r: Option<Decimal>)
        ensures
            r == mul_of(*self, *other),
            self.spec_is_zero() || other.spec_is_zero() ==> r == Some(Decimal::spec_zero()),
    {
        proof {
            use_type_invariant(self);
            use_type_invariant(other);
        }
        decimal_mul(self, other)
    }

    pub fn div(&self, other: &Decimal) -> (r: Option<Decimal>)
        ensures
            r == div_of(*self, *other),
    {
        proof {
            use_type_invariant(self);
            use_type_invariant(other);
        }
        decimal_div(self, other)
    }

    pub fn pow(&self, other: &Decimal) -> (r: Option<Decimal>)
        ensures
            r == pow_of(*self, *other),
            self.spec_is_zero() && other.spec_is_positive() ==> r == Some(Decimal::spec_zero()),
    {
        proof {
            use_type_invariant(self);
            use_type_invariant(other);
        }
        decimal_pow(self, other)
    }

    pub fn sqrt(&self) -> (r: Option<Decimal>)
        ensures
            r == sqrt_of(*self),
            self.spec_is_zero() && self.spec_raw_parts().2 == 1 ==> r == Some(Decimal::spec_zero()),
    {
        proof {
            use_type_invariant(self);
        }
        decimal_sqrt(self)
    }
}

/// Decimal positions in one base-10000 digit.
fn part_len(x: i16) -> (r: i16)
    ensures
        r == part_digits(x),
{
    if x >= 1000 {
        4
    } else if x >= 100 {
        3
    } else if x >= 10 {
        2
    } else if x >= 1 {
        1
    } else {
        0
    }
}

/// Relies on `BigFloat::from_raw_parts`, `BigFloat::add` and
/// `BigFloat::to_raw_parts`: the sum depends on the two values alone, comes
/// back normalised (a zero result as `BigFloat::new()`), and a non-finite
/// sum has no raw parts. A zero first operand returns the second, so zero
/// plus zero is zero.
#[verifier::external_body]
fn decimal_add(a: &Decimal, b: &Decimal) -> (r: Option<Decimal>)
    requires
        a.wf(),
        b.wf(),
    ensures
        r == add_of(*a, *b),
        r matches Some(d) ==> d.wf(),
        a.spec_is_zero() && b.spec_is_zero() ==> r == Some(Decimal::spec_zero()),
{
    let x = BigFloat::from_raw_parts(a.mantissa, a.len, a.sign, a.exponent);
    let y = BigFloat::from_raw_parts(b.mantissa, b.len, b.sign, b.exponent);
    x.add(&y).to_raw_parts().map(|(m, n, s, e)| Decimal { mantissa: m, len: n, sign: s, exponent: e })
}

/// Relies on `BigFloat::sub`, as `decimal_add` does on `BigFloat::add`.
/// Equal operands meet the equal-magnitude branch, which gives zero.
#[verifier::external_body]
fn decimal_sub(a: &Decimal, b: &Decimal) -> (r: Option<Decimal>)
    requires
        a.wf(),
        b.wf(),
    ensures
        r == sub_of(*a, *b),
        r matches Some(d) ==> d.wf(),
        *a == *b ==> r == Some(Decimal::spec_zero()),
{
    let x = BigFloat::from_raw_parts(a.mantissa, a.len, a.sign, a.exponent);
    let y = BigFloat::from_raw_parts(b.mantissa, b.len, b.sign, b.exponent);
    x.sub(&y).to_raw_parts().map(|(m, n, s, e)| Decimal { mantissa: m, len: n, sign: s, exponent: e })
}

/// Relies on `BigFloat::mul`, as `decimal_add` does on `BigFloat::add`.
/// A zero operand returns zero at once.
#[verifier::external_body]
fn decimal_mul(a: &Decimal, b: &Decimal) -> (r: Option<Decimal>)
    requires
        a.wf(),
        b.wf(),
    ensures
        r == mul_of(*a, *b),
        r matches Some(d) ==> d.wf(),
        a.spec_is_zero() || b.spec_is_zero() ==> r == Some(Decimal::spec_zero()),
{
    let x = BigFloat::from_raw_parts(a.mantissa, a.len, a.sign, a.exponent);
    let y = BigFloat::from_raw_parts(b.mantissa, b.len, b.sign, b.exponent);
    x.mul(&y).to_raw_parts().map(|(m, n, s, e)| Decimal { mantissa: m, len: n, sign: s, exponent: e })
}

/// Relies on `BigFloat::div`, as `decimal_add` does on `BigFloat::add`; a
/// division by zero gives NaN or an infinity, which has no raw parts.
#[verifier::external_body]
fn decimal_div(a: &Decimal, b: &Decimal) -> (r: Option<Decimal>)
    requires
        a.wf(),
        b.wf(),
    ensures
        r == div_of(*a, *b),
        r matches Some(d) ==> d.wf(),
{
    let x = BigFloat::from_raw_parts(a.mantissa, a.len, a.sign, a.exponent);
    let y = BigFloat::from_raw_parts(b.mantissa, b.len, b.sign, b.exponent);
    x.div(&y).to_raw_parts().map(|(m, n, s, e)| Decimal { mantissa: m, len: n, sign: s, exponent: e })
}

/// Relies on `BigFloat::pow`, as `decimal_add` does on `BigFloat::add`.
/// Zero to a positive power is returned as it is, hence zero.
#[verifier::external_body]
fn decimal_pow(a: &Decimal, b: &Decimal) -> (r: Option<Decimal>)
    requires
        a.wf(),
        b.wf(),
    ensures
        r == pow_of(*a, *b),
        r matches Some(d) ==> d.wf(),
        a.spec_is_zero() && b.spec_is_positive() ==> r == Some(Decimal::spec_zero()),
{
    let x = BigFloat::from_raw_parts(a.mantissa, a.len, a.sign, a.exponent);
    let y = BigFloat::from_raw_parts(b.mantissa, b.len, b.sign, b.exponent);
    x.pow(&y).to_raw_parts().map(|(m, n, s, e)| Decimal { mantissa: m, len: n, sign: s, exponent: e })
}

/// Relies on `BigFloat::sqrt`: the root depends on the value alone, comes
/// back normalised, and the root of a negative number is NaN, which has no
/// raw parts. A positive zero is returned as it is.
#[verifier::external_body]
fn decimal_sqrt(a: &Decimal) -> (r: Option<Decimal>)
    requires
        a.wf(),
    ensures
        r == sqrt_of(*a),
        r matches Some(d) ==> d.wf(),
        a.spec_is_zero() && a.sign == 1 ==> r == Some(Decimal::spec_zero()),
{
    let x = BigFloat::from_raw_parts(a.mantissa, a.len, a.sign, a.exponent);
    x.sqrt().to_raw_parts().map(|(m, n, s, e)| Decimal { mantissa: m, len: n, sign: s, exponent: e })
}

/// Relies on `BigFloat::from_u128`: it writes the decimal digits of `v`
/// into the mantissa, four to a part from the least significant, counts
/// them, and sets sign `1` and exponent `0`; for zero it gives
/// `BigFloat::new()`, which is the same with no digits.
#[verifier::external_body]
fn decimal_from_u128(v: u128) -> (r: Decimal)
    ensures
        r == Decimal::spec_from_u128(v),
        r.wf(),
{
    let (m, n, s, e) = BigFloat::from_u128(v).to_raw_parts().unwrap();
    Decimal { mantissa: m, len: n, sign: s, exponent: e }
}

} // verus!
