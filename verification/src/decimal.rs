//! Fixed-precision decimal numbers: an integer mantissa over a power of ten.
//!
//! A [`Decimal`] holds the two integers that `rust_decimal::Decimal` is made of,
//! so that verified code can read them. Arithmetic is done by `rust_decimal`.

use vstd::prelude::*;
use rust_decimal::prelude::ToPrimitive;

verus! {

/// Largest magnitude of a mantissa: 2^96 - 1.
pub const MAX_MANTISSA: i128 = 0x0000_0000_FFFF_FFFF_FFFF_FFFF_FFFF_FFFF;

/// Largest scale: the mantissa is divided by at most 10^28.
pub const MAX_SCALE: u32 = 28;

/// The number `mantissa / 10^scale`.
#[derive(Clone, Copy, Debug, PartialEq, Eq)]
pub struct Decimal {
    mantissa: i128,
    scale: u32,
}

/// `10^e`.
pub open spec fn pow10(e: nat) -> int
    decreases e,
{
    if e == 0 {
        1
    } else {
        10 * pow10((e - 1) as nat)
    }
}

/// Whether `(mantissa, scale)` is a pair that a decimal can hold.
pub open spec fn representable(mantissa: int, scale: nat) -> bool {
    -MAX_MANTISSA <= mantissa <= MAX_MANTISSA && scale <= MAX_SCALE
}

/// `a <= b` as numbers, for `a` and `b` given as (mantissa, scale).
pub open spec fn decimal_le(a: (int, nat), b: (int, nat)) -> bool {
    a.0 * pow10(b.1) <= b.0 * pow10(a.1)
}

/// `a == b` as numbers: `1.0` and `1.00` are equal though their scales differ.
pub open spec fn decimal_same(a: (int, nat), b: (int, nat)) -> bool {
    a.0 * pow10(b.1) == b.0 * pow10(a.1)
}

/// The integer part of `mantissa / 10^scale`, rounded toward zero.
pub open spec fn integer_part(mantissa: int, scale: nat) -> int {
    if mantissa >= 0 {
        mantissa / pow10(scale)
    } else {
        -((-mantissa) / pow10(scale))
    }
}

/// What `rust_decimal` gives for `a + b`; `None` where it reports overflow.
pub uninterp spec fn decimal_sum(
    a_mantissa: int,
    a_scale: nat,
    b_mantissa: int,
    b_scale: nat,
) -> Option<(int, nat)>;

/// What `rust_decimal` gives for `a - b`; `None` where it reports overflow.
pub uninterp spec fn decimal_difference(
    a_mantissa: int,
    a_scale: nat,
    b_mantissa: int,
    b_scale: nat,
) -> Option<(int, nat)>;

/// What `rust_decimal` gives for `a * b`; `None` where it reports overflow.
pub uninterp spec fn decimal_product(
    a_mantissa: int,
    a_scale: nat,
    b_mantissa: int,
    b_scale: nat,
) -> Option<(int, nat)>;

/// What `rust_decimal` gives for `a / b`; `None` where it reports overflow or
/// a zero divisor.
pub uninterp spec fn decimal_quotient(
    a_mantissa: int,
    a_scale: nat,
    b_mantissa: int,
    b_scale: nat,
) -> Option<(int, nat)>;

impl View for Decimal {
    type V = (int, nat);

    closed spec fn view(&self) -> (int, nat) {
        (self.mantissa as int, self.scale as nat)
    }
}

impl Decimal {
    /// Every decimal holds a representable pair.
    #[verifier::type_invariant]
    spec fn in_range(self) -> bool {
        representable(self.mantissa as int, self.scale as nat)
    }

    /// The decimal `mantissa / 10^scale`, if the pair is representable.
    pub fn from_parts(mantissa: i128, scale: u32) -> (r: Option<Decimal>)
        ensures
            r is Some <==> representable(mantissa as int, scale as nat),
            r matches Some(d) ==> d@ == (mantissa as int, scale as nat),
    {
        if -MAX_MANTISSA <= mantissa && mantissa <= MAX_MANTISSA && scale <= MAX_SCALE {
            Some(Decimal { mantissa, scale })
        } else {
            None
        }
    }

    /// The decimal `num / 10^scale`, if `scale` is at most [`MAX_SCALE`].
    pub fn new(num: i64, scale: u32) -> (r: Option<Decimal>)
        ensures
            r is Some <==> scale <= MAX_SCALE,
            r matches Some(d) ==> d@ == (num as int, scale as nat),
    {
        if scale <= MAX_SCALE {
            Some(Decimal { mantissa: num as i128, scale })
        } else {
            None
        }
    }

    /// Zero, with scale 0.
    pub fn zero() -> (r: Decimal)
        ensures
            r@ == (0int, 0nat),
    {
        Decimal { mantissa: 0, scale: 0 }
    }

    /// The mantissa: the number times `10^scale`.
    pub fn mantissa(&self) -> (r: i128)
        ensures
            r == self@.0,
            representable(self@.0, self@.1),
    {
        proof {
            use_type_invariant(self);
        }
        self.mantissa
    }

    /// The scale: how many of the mantissa's digits are fractional.
    pub fn scale(&self) -> (r: u32)
        ensures
            r == self@.1,
            representable(self@.0, self@.1),
    {
        proof {
            use_type_invariant(self);
        }
        self.scale
    }

    /// Whether the number is greater than zero.
    pub fn is_positive(&self) -> (r: bool)
        ensures
            r == (self@.0 > 0),
    {
        self.mantissa > 0
    }

    /// Whether the number is less than zero.
    pub fn is_negative(&self) -> (r: bool)
        ensures
            r == (self@.0 < 0),
    {
        self.mantissa < 0
    }

    /// Whether the number is at most `other`.
    pub fn le(&self, other: &Decimal) -> (r: bool)
        ensures
            r == decimal_le(self@, other@),
    {
        at_most(*self, *other)
    }

    /// Whether the two are the same number, whatever their scales.
    pub fn value_eq(&self, other: &Decimal) -> (r: bool)
        ensures
            r == decimal_same(self@, other@),
    {
        at_most(*self, *other) && at_most(*other, *self)
    }
}

/// Calls `rust_decimal::Decimal::checked_add` on the two numbers. The result
/// is the one that [`decimal_sum`] names. Like every decimal of
/// `rust_decimal`, it has a mantissa of at most 96 bits and a scale of at
/// most 28.
#[verifier::external_body]
pub(crate) fn checked_sum(a: Decimal, b: Decimal) -> (r: Option<Decimal>)
    ensures
        r is Some <==> decimal_sum(a@.0, a@.1, b@.0, b@.1) is Some,
        r matches Some(d) ==> decimal_sum(a@.0, a@.1, b@.0, b@.1) == Some(d@),
        r matches Some(d) ==> representable(d@.0, d@.1),
{
    let x = rust_decimal::Decimal::from_i128_with_scale(a.mantissa, a.scale);
    let y = rust_decimal::Decimal::from_i128_with_scale(b.mantissa, b.scale);
    match x.checked_add(y) {
        Some(d) => Some(Decimal { mantissa: d.mantissa(), scale: d.scale() }),
        None => None,
    }
}

/// Calls `rust_decimal::Decimal::checked_sub` on the two numbers. The result
/// is the one that [`decimal_difference`] names. Like every decimal of
/// `rust_decimal`, it has a mantissa of at most 96 bits and a scale of at
/// most 28.
#[verifier::external_body]
pub(crate) fn checked_difference(a: Decimal, b: Decimal) -> (r: Option<Decimal>)
    ensures
        r is Some <==> decimal_difference(a@.0, a@.1, b@.0, b@.1) is Some,
        r matches Some(d) ==> decimal_difference(a@.0, a@.1, b@.0, b@.1) == Some(d@),
        r matches Some(d) ==> representable(d@.0, d@.1),
{
    let x = rust_decimal::Decimal::from_i128_with_scale(a.mantissa, a.scale);
    let y = rust_decimal::Decimal::from_i128_with_scale(b.mantissa, b.scale);
    match x.checked_sub(y) {
        Some(d) => Some(Decimal { mantissa: d.mantissa(), scale: d.scale() }),
        None => None,
    }
}

/// Calls `rust_decimal::Decimal::checked_mul` on the two numbers. The result
/// is the one that [`decimal_product`] names. Like every decimal of
/// `rust_decimal`, it has a mantissa of at most 96 bits and a scale of at
/// most 28.
#[verifier::external_body]
pub(crate) fn checked_product(a: Decimal, b: Decimal) -> (r: Option<Decimal>)
    ensures
        r is Some <==> decimal_product(a@.0, a@.1, b@.0, b@.1) is Some,
        r matches Some(d) ==> decimal_product(a@.0, a@.1, b@.0, b@.1) == Some(d@),
        r matches Some(d) ==> representable(d@.0, d@.1),
{
    let x = rust_decimal::Decimal::from_i128_with_scale(a.mantissa, a.scale);
    let y = rust_decimal::Decimal::from_i128_with_scale(b.mantissa, b.scale);
    match x.checked_mul(y) {
        Some(d) => Some(Decimal { mantissa: d.mantissa(), scale: d.scale() }),
        None => None,
    }
}

/// Calls `rust_decimal::Decimal::checked_div` on the two numbers. The result
/// is the one that [`decimal_quotient`] names. Like every decimal of
/// `rust_decimal`, it has a mantissa of at most 96 bits and a scale of at
/// most 28.
#[verifier::external_body]
pub(crate) fn checked_quotient(a: Decimal, b: Decimal) -> (r: Option<Decimal>)
    ensures
        r is Some <==> decimal_quotient(a@.0, a@.1, b@.0, b@.1) is Some,
        r matches Some(d) ==> decimal_quotient(a@.0, a@.1, b@.0, b@.1) == Some(d@),
        r matches Some(d) ==> representable(d@.0, d@.1),
{
    let x = rust_decimal::Decimal::from_i128_with_scale(a.mantissa, a.scale);
    let y = rust_decimal::Decimal::from_i128_with_scale(b.mantissa, b.scale);
    match x.checked_div(y) {
        Some(d) => Some(Decimal { mantissa: d.mantissa(), scale: d.scale() }),
        None => None,
    }
}

/// Compares the two numbers with `<=` of `rust_decimal::Decimal`, which orders
/// decimals by their numeric value whatever their scales.
#[verifier::external_body]
pub(crate) fn at_most(a: Decimal, b: Decimal) -> (r: bool)
    ensures
        r == decimal_le(a@, b@),
{
    let x = rust_decimal::Decimal::from_i128_with_scale(a.mantissa, a.scale);
    let y = rust_decimal::Decimal::from_i128_with_scale(b.mantissa, b.scale);
    x <= y
}

/// Calls `to_i64` of `rust_decimal::Decimal`, which drops the fractional
/// digits and gives `None` where what is left does not fit in an `i64`.
#[verifier::external_body]
pub(crate) fn integer_part_i64(a: Decimal) -> (r: Option<i64>)
    ensures
        r is Some <==> i64::MIN <= integer_part(a@.0, a@.1) <= i64::MAX,
        r matches Some(n) ==> n == integer_part(a@.0, a@.1),
{
    let x = rust_decimal::Decimal::from_i128_with_scale(a.mantissa, a.scale);
    x.to_i64()
}

} // verus!
