//! Fixed-point decimal amounts used for cash, prices, quantities and commissions.
//!
//! An [`Amount`] is a signed 96-bit mantissa together with a decimal scale between
//! 0 and 28; it stands for `mantissa / 10^scale`. Arithmetic is carried out by
//! `rust_decimal`; comparison is exact.

use vstd::prelude::*;

verus! {

/// Largest magnitude a mantissa may take: `2^96 - 1`.
pub const MAX_MANTISSA: i128 = 0xFFFF_FFFF_FFFF_FFFF_FFFF_FFFF;

/// Largest decimal scale.
pub const MAX_SCALE: u32 = 28;

/// A decimal number `mantissa / 10^scale`.
#[derive(Clone, Copy, Debug, PartialEq, Eq)]
pub struct Amount {
    pub mantissa: i128,
    pub scale: u32,
}

/// `10^n`.
pub open spec fn pow10(n: nat) -> int
    decreases n,
{
    if n == 0 {
        1
    } else {
        10 * pow10((n - 1) as nat)
    }
}

/// What `rust_decimal` returns for `a + b` on decimals given by mantissa and scale.
pub uninterp spec fn decimal_sum(am: int, asc: int, bm: int, bsc: int) -> Option<(int, int)>;

/// What `rust_decimal` returns for `a - b` on decimals given by mantissa and scale.
pub uninterp spec fn decimal_difference(am: int, asc: int, bm: int, bsc: int) -> Option<(int, int)>;

/// What `rust_decimal` returns for `a * b` on decimals given by mantissa and scale.
pub uninterp spec fn decimal_product(am: int, asc: int, bm: int, bsc: int) -> Option<(int, int)>;

/// What `rust_decimal` returns for `a / b` on decimals given by mantissa and scale.
pub uninterp spec fn decimal_quotient(am: int, asc: int, bm: int, bsc: int) -> Option<(int, int)>;

/// Mantissa and scale of an optional amount, as integers.
pub open spec fn parts(r: Option<Amount>) -> Option<(int, int)> {
    match r {
        Some(v) => Some((v.mantissa as int, v.scale as int)),
        None => None,
    }
}

/// The amount with the given mantissa and scale, where there is one.
pub open spec fn amount_of(p: Option<(int, int)>) -> Option<Amount> {
    match p {
        Some((m, s)) => Some(Amount { mantissa: m as i128, scale: s as u32 }),
        None => None,
    }
}

/// Calls `rust_decimal::Decimal::checked_add`. The result is whatever that function
/// computes from the two decimals; when present it is a valid decimal.
#[verifier::external_body]
fn decimal_checked_add(a: Amount, b: Amount) -> (r: Option<Amount>)
    requires
        a.wf(),
        b.wf(),
    ensures
        parts(r) == decimal_sum(a.mantissa as int, a.scale as int, b.mantissa as int, b.scale as int),
        r matches Some(v) ==> v.wf(),
{
    let x = rust_decimal::Decimal::from_i128_with_scale(a.mantissa, a.scale);
    let y = rust_decimal::Decimal::from_i128_with_scale(b.mantissa, b.scale);
    match x.checked_add(y) {
        Some(d) => Some(Amount { mantissa: d.mantissa(), scale: d.scale() }),
        None => None,
    }
}

/// Calls `rust_decimal::Decimal::checked_sub`. The result is whatever that function
/// computes from the two decimals; when present it is a valid decimal.
#[verifier::external_body]
fn decimal_checked_sub(a: Amount, b: Amount) -> (r: Option<Amount>)
    requires
        a.wf(),
        b.wf(),
    ensures
        parts(r) == decimal_difference(a.mantissa as int, a.scale as int, b.mantissa as int, b.scale as int),
        r matches Some(v) ==> v.wf(),
{
    let x = rust_decimal::Decimal::from_i128_with_scale(a.mantissa, a.scale);
    let y = rust_decimal::Decimal::from_i128_with_scale(b.mantissa, b.scale);
    match x.checked_sub(y) {
        Some(d) => Some(Amount { mantissa: d.mantissa(), scale: d.scale() }),
        None => None,
    }
}

/// Calls `rust_decimal::Decimal::checked_mul`. The result is whatever that function
/// computes from the two decimals; when present it is a valid decimal.
#[verifier::external_body]
fn decimal_checked_mul(a: Amount, b: Amount) -> (r: Option<Amount>)
    requires
        a.wf(),
        b.wf(),
    ensures
        parts(r) == decimal_product(a.mantissa as int, a.scale as int, b.mantissa as int, b.scale as int),
        r matches Some(v) ==> v.wf(),
{
    let x = rust_decimal::Decimal::from_i128_with_scale(a.mantissa, a.scale);
    let y = rust_decimal::Decimal::from_i128_with_scale(b.mantissa, b.scale);
    match x.checked_mul(y) {
        Some(d) => Some(Amount { mantissa: d.mantissa(), scale: d.scale() }),
        None => None,
    }
}

/// Calls `rust_decimal::Decimal::checked_div`. The result is whatever that function
/// computes from the two decimals; when present it is a valid decimal.
#[verifier::external_body]
fn decimal_checked_div(a: Amount, b: Amount) -> (r: Option<Amount>)
    requires
        a.wf(),
        b.wf(),
    ensures
        parts(r) == decimal_quotient(a.mantissa as int, a.scale as int, b.mantissa as int, b.scale as int),
        r matches Some(v) ==> v.wf(),
{
    let x = rust_decimal::Decimal::from_i128_with_scale(a.mantissa, a.scale);
    let y = rust_decimal::Decimal::from_i128_with_scale(b.mantissa, b.scale);
    match x.checked_div(y) {
        Some(d) => Some(Amount { mantissa: d.mantissa(), scale: d.scale() }),
        None => None,
    }
}

/// Calls `>` of `rust_decimal::Decimal`, which compares the two numbers exactly:
/// the mantissas are compared after bringing both to a common scale.
#[verifier::external_body]
fn decimal_gt(a: Amount, b: Amount) -> (r: bool)
    requires
        a.wf(),
        b.wf(),
    ensures
        r == a.spec_gt(b),
{
    let x = rust_decimal::Decimal::from_i128_with_scale(a.mantissa, a.scale);
    let y = rust_decimal::Decimal::from_i128_with_scale(b.mantissa, b.scale);
    x > y
}

impl Amount {
    /// A mantissa of at most 96 bits and a scale of at most 28.
    pub open spec fn wf(self) -> bool {
        &&& -MAX_MANTISSA <= self.mantissa <= MAX_MANTISSA
        &&& self.scale <= MAX_SCALE
    }

    /// `self > other` as numbers.
    pub open spec fn spec_gt(self, other: Amount) -> bool {
        self.mantissa * pow10(other.scale as nat) > other.mantissa * pow10(self.scale as nat)
    }

    /// `self >= other` as numbers.
    pub open spec fn spec_ge(self, other: Amount) -> bool {
        !other.spec_gt(self)
    }

    /// `self` and `other` are the same number, whatever their scales.
    pub open spec fn same_value(self, other: Amount) -> bool {
        !self.spec_gt(other) && !other.spec_gt(self)
    }

    /// The sum as `rust_decimal` computes it; `None` on overflow.
    pub open spec fn spec_add(self, other: Amount) -> Option<Amount> {
        amount_of(
            decimal_sum(self.mantissa as int, self.scale as int, other.mantissa as int, other.scale as int),
        )
    }

    /// The difference as `rust_decimal` computes it; `None` on overflow.
    pub open spec fn spec_sub(self, other: Amount) -> Option<Amount> {
        amount_of(
            decimal_difference(
                self.mantissa as int,
                self.scale as int,
                other.mantissa as int,
                other.scale as int,
            ),
        )
    }

    /// The product as `rust_decimal` computes it; `None` on overflow.
    pub open spec fn spec_mul(self, other: Amount) -> Option<Amount> {
        amount_of(
            decimal_product(
                self.mantissa as int,
                self.scale as int,
                other.mantissa as int,
                other.scale as int,
            ),
        )
    }

    /// The quotient as `rust_decimal` computes it; `None` on overflow or a zero divisor.
    pub open spec fn spec_div(self, other: Amount) -> Option<Amount> {
        amount_of(
            decimal_quotient(
                self.mantissa as int,
                self.scale as int,
                other.mantissa as int,
                other.scale as int,
            ),
        )
    }

    /// The number `mantissa / 10^scale`.
    pub fn new(mantissa: i64, scale: u32) -> (r: Amount)
        requires
            scale <= MAX_SCALE,
        ensures
            r.wf(),
            r.mantissa == mantissa,
            r.scale == scale,
    {
        Amount { mantissa: mantissa as i128, scale }
    }

    /// The number `mantissa / 10^scale`, or `None` where the mantissa needs more than
    /// 96 bits or the scale is above 28.
    pub fn from_parts(mantissa: i128, scale: u32) -> (r: Option<Amount>)
        ensures
            r == (if (Amount { mantissa, scale }).wf() {
                Some(Amount { mantissa, scale })
            } else {
                None
            }),
    {
        if scale <= MAX_SCALE && -MAX_MANTISSA <= mantissa && mantissa <= MAX_MANTISSA {
            Some(Amount { mantissa, scale })
        } else {
            None
        }
    }

    /// Whether the mantissa fits 96 bits and the scale is at most 28.
    pub fn is_valid(self) -> (r: bool)
        ensures
            r == self.wf(),
    {
        self.scale <= MAX_SCALE && -MAX_MANTISSA <= self.mantissa && self.mantissa <= MAX_MANTISSA
    }

    /// The mark of a number that has no decimal representation. It is not a
    /// valid amount and takes no part in arithmetic.
    pub fn unrepresentable() -> (r: Amount)
        ensures
            !r.wf(),
    {
        Amount { mantissa: 0, scale: u32::MAX }
    }

    /// Zero.
    pub fn zero() -> (r: Amount)
        ensures
            r == (Amount { mantissa: 0, scale: 0 }),
            r.wf(),
    {
        Amount { mantissa: 0, scale: 0 }
    }

    /// One.
    pub fn one() -> (r: Amount)
        ensures
            r == (Amount { mantissa: 1, scale: 0 }),
            r.wf(),
    {
        Amount { mantissa: 1, scale: 0 }
    }

    /// One hundred.
    pub fn hundred() -> (r: Amount)
        ensures
            r == (Amount { mantissa: 100, scale: 0 }),
            r.wf(),
    {
        Amount { mantissa: 100, scale: 0 }
    }

    /// The largest amount there is.
    pub fn max_value() -> (r: Amount)
        ensures
            r == (Amount { mantissa: MAX_MANTISSA, scale: 0 }),
            r.wf(),
    {
        Amount { mantissa: MAX_MANTISSA, scale: 0 }
    }

    /// A count as an amount.
    pub fn from_count(n: usize) -> (r: Amount)
        ensures
            r == (Amount { mantissa: n as i128, scale: 0 }),
            r.wf(),
    {
        Amount { mantissa: n as i128, scale: 0 }
    }

    /// Whether the number is zero.
    pub fn is_zero(self) -> (r: bool)
        ensures
            r == (self.mantissa == 0),
    {
        self.mantissa == 0
    }

    /// Whether the number is below zero.
    pub fn is_negative(self) -> (r: bool)
        ensures
            r == (self.mantissa < 0),
    {
        self.mantissa < 0
    }

    /// `self + other`; `None` on overflow.
    pub fn checked_add(self, other: Amount) -> (r: Option<Amount>)
        requires
            self.wf(),
            other.wf(),
        ensures
            r == self.spec_add(other),
            r matches Some(v) ==> v.wf(),
    {
        decimal_checked_add(self, other)
    }

    /// `self - other`; `None` on overflow.
    pub fn checked_sub(self, other: Amount) -> (r: Option<Amount>)
        requires
            self.wf(),
            other.wf(),
        ensures
            r == self.spec_sub(other),
            r matches Some(v) ==> v.wf(),
    {
        decimal_checked_sub(self, other)
    }

    /// `self * other`; `None` on overflow.
    pub fn checked_mul(self, other: Amount) -> (r: Option<Amount>)
        requires
            self.wf(),
            other.wf(),
        ensures
            r == self.spec_mul(other),
            r matches Some(v) ==> v.wf(),
    {
        decimal_checked_mul(self, other)
    }

    /// `self / other`; `None` on overflow or where `other` is zero.
    pub fn checked_div(self, other: Amount) -> (r: Option<Amount>)
        requires
            self.wf(),
            other.wf(),
        ensures
            r == self.spec_div(other),
            r matches Some(v) ==> v.wf(),
    {
        decimal_checked_div(self, other)
    }

    /// Whether `self > other` as numbers.
    pub fn gt(self, other: Amount) -> (r: bool)
        requires
            self.wf(),
            other.wf(),
        ensures
            r == self.spec_gt(other),
    {
        decimal_gt(self, other)
    }

    /// Whether `self >= other` as numbers.
    pub fn ge(self, other: Amount) -> (r: bool)
        requires
            self.wf(),
            other.wf(),
        ensures
            r == self.spec_ge(other),
    {
        !decimal_gt(other, self)
    }

    /// Whether both are the same number, whatever their scales.
    pub fn equals(self, other: Amount) -> (r: bool)
        requires
            self.wf(),
            other.wf(),
        ensures
            r == self.same_value(other),
    {
        !decimal_gt(self, other) && !decimal_gt(other, self)
    }
}

} // verus!
