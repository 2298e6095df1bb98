//! Fixed-precision decimal numbers for prices, quantities and ratios.
//!
//! A [`Decimal`] is a signed 96-bit mantissa together with a scale between 0
//! and 28: the number `mantissa / 10^scale`. Arithmetic, ordering, parsing and
//! printing are done by the `rust_decimal` crate; this module holds the value
//! as two plain integers so that the rest of the library can reason about it.

use vstd::prelude::*;
use vstd::std_specs::cmp::PartialEqSpecImpl;

verus! {

/// Ten to the power `n`.
pub open spec fn pow10(n: nat) -> nat
    decreases n,
{
    if n == 0 {
        1
    } else {
        10 * pow10((n - 1) as nat)
    }
}

/// Ten to any power is positive.
pub proof fn lemma_pow10_positive(n: nat)
    ensures
        pow10(n) > 0,
    decreases n,
{
    if n > 0 {
        lemma_pow10_positive((n - 1) as nat);
    }
}

/// The largest magnitude a mantissa can have: `2^96 - 1`.
pub const MAX_MANTISSA: i128 = 79_228_162_514_264_337_593_543_950_335;

/// The largest scale: 28 digits after the decimal point.
pub const MAX_SCALE: u32 = 28;

/// The sum that `rust_decimal` computes for two decimals, `None` on overflow.
pub uninterp spec fn decimal_sum(a: Decimal, b: Decimal) -> Option<Decimal>;

/// The difference that `rust_decimal` computes, `None` on overflow.
pub uninterp spec fn decimal_difference(a: Decimal, b: Decimal) -> Option<Decimal>;

/// The product that `rust_decimal` computes, `None` on overflow.
pub uninterp spec fn decimal_product(a: Decimal, b: Decimal) -> Option<Decimal>;

/// The quotient that `rust_decimal` computes, `None` on overflow or when the
/// divisor is zero.
pub uninterp spec fn decimal_quotient(a: Decimal, b: Decimal) -> Option<Decimal>;

/// The decimal that `rust_decimal` reads from a text, `None` where it reads none.
pub uninterp spec fn decimal_parse(text: Seq<char>) -> Option<Decimal>;

/// The text that `rust_decimal` prints for a decimal.
pub uninterp spec fn decimal_text(d: Decimal) -> Seq<char>;

/// A decimal number `mantissa / 10^scale`.
#[derive(Clone, Copy, Debug)]
pub struct Decimal {
    mantissa: i128,
    scale: u32,
}

impl Decimal {
    #[verifier::type_invariant]
    spec fn inv(self) -> bool {
        &&& -MAX_MANTISSA <= self.mantissa <= MAX_MANTISSA
        &&& self.scale <= MAX_SCALE
    }

    /// The mantissa as a mathematical integer.
    pub closed spec fn spec_mantissa(self) -> int {
        self.mantissa as int
    }

    /// The number of digits after the decimal point.
    pub closed spec fn spec_scale(self) -> nat {
        self.scale as nat
    }

    /// The mantissa fits in 96 bits and the scale is at most 28. Every
    /// executable `Decimal` is well formed.
    pub open spec fn wf(self) -> bool {
        &&& -MAX_MANTISSA <= self.spec_mantissa() <= MAX_MANTISSA
        &&& self.spec_scale() <= MAX_SCALE
    }

    /// The number in units of `10^-28`: an integer that orders decimals of
    /// different scales. Two decimals are the same number exactly when their
    /// units are equal.
    pub open spec fn units(self) -> int {
        self.spec_mantissa() * pow10((MAX_SCALE - self.spec_scale()) as nat)
    }

    /// The decimal `0`.
    pub open spec fn spec_zero() -> Decimal {
        Decimal::spec_new(0, 0)
    }

    /// The decimal with the given mantissa and scale.
    pub closed spec fn spec_new(mantissa: int, scale: nat) -> Decimal {
        Decimal { mantissa: mantissa as i128, scale: scale as u32 }
    }

    /// The decimal `mantissa / 10^scale`, or `None` when the mantissa needs
    /// more than 96 bits or the scale is above 28.
    pub fn new(mantissa: i128, scale: u32) -> (r: Option<Decimal>)
        ensures
            r is Some <==> (-MAX_MANTISSA <= mantissa <= MAX_MANTISSA && scale <= MAX_SCALE),
            r matches Some(d) ==> d == Decimal::spec_new(mantissa as int, scale as nat)
                && d.spec_mantissa() == mantissa && d.spec_scale() == scale && d.wf(),
    {
        if -MAX_MANTISSA <= mantissa && mantissa <= MAX_MANTISSA && scale <= MAX_SCALE {
            Some(Decimal { mantissa, scale })
        } else {
            None
        }
    }

    /// The whole number `n`, with scale 0.
    pub fn from_i64(n: i64) -> (r: Decimal)
        ensures
            r == Decimal::spec_new(n as int, 0),
            r.spec_mantissa() == n,
            r.spec_scale() == 0,
            r.wf(),
    {
        Decimal { mantissa: n as i128, scale: 0 }
    }

    /// The decimal `0`.
    pub fn zero() -> (r: Decimal)
        ensures
            r == Decimal::spec_zero(),
            r.units() == 0,
            r.wf(),
    {
        let r = Decimal { mantissa: 0, scale: 0 };
        proof {
            lemma_units_sign(r);
        }
        r
    }

    /// The mantissa.
    pub fn mantissa(&self) -> (r: i128)
        ensures
            r == self.spec_mantissa(),
            -MAX_MANTISSA <= r <= MAX_MANTISSA,
    {
        proof {
            use_type_invariant(self);
        }
        self.mantissa
    }

    /// The scale.
    pub fn scale(&self) -> (r: u32)
        ensures
            r == self.spec_scale(),
            r <= MAX_SCALE,
    {
        proof {
            use_type_invariant(self);
        }
        self.scale
    }

    /// Whether the number is zero.
    pub fn is_zero(&self) -> (r: bool)
        ensures
            r == (self.units() == 0),
            r == (self.spec_mantissa() == 0),
    {
        proof {
            lemma_pow10_positive((MAX_SCALE - self.spec_scale()) as nat);
            lemma_units_sign(*self);
        }
        self.mantissa == 0
    }

    /// Whether the number is below zero.
    pub fn is_negative(&self) -> (r: bool)
        ensures
            r == (self.units() < 0),
    {
        proof {
            lemma_units_sign(*self);
        }
        self.mantissa < 0
    }

    /// Whether the number is above zero.
    pub fn is_positive(&self) -> (r: bool)
        ensures
            r == (self.units() > 0),
    {
        proof {
            lemma_units_sign(*self);
        }
        self.mantissa > 0
    }

    /// The absolute value: the same digits and scale without the sign.
    pub closed spec fn spec_abs(self) -> Decimal {
        Decimal {
            mantissa: if self.mantissa < 0 {
                (-self.mantissa) as i128
            } else {
                self.mantissa
            },
            scale: self.scale,
        }
    }

    /// The absolute value: the same digits and scale without the sign.
    pub fn abs(&self) -> (r: Decimal)
        ensures
            r == self.spec_abs(),
            r.spec_scale() == self.spec_scale(),
            r.spec_mantissa() == if self.spec_mantissa() < 0 {
                -self.spec_mantissa()
            } else {
                self.spec_mantissa()
            },
            r.units() == if self.units() < 0 {
                -self.units()
            } else {
                self.units()
            },
            r.wf(),
    {
        proof {
            use_type_invariant(self);
            lemma_units_sign(*self);
        }
        let m = if self.mantissa < 0 {
            -self.mantissa
        } else {
            self.mantissa
        };
        let r = Decimal { mantissa: m, scale: self.scale };
        proof {
            lemma_units_sign(r);
            lemma_pow10_positive((MAX_SCALE - self.spec_scale()) as nat);
            assert(r.units() == if self.units() < 0 {
                -self.units()
            } else {
                self.units()
            }) by (nonlinear_arith)
                requires
                    r.units() == r.spec_mantissa() * pow10((MAX_SCALE - r.spec_scale()) as nat),
                    self.units() == self.spec_mantissa() * pow10(
                        (MAX_SCALE - self.spec_scale()) as nat,
                    ),
                    r.spec_scale() == self.spec_scale(),
                    pow10((MAX_SCALE - self.spec_scale()) as nat) > 0,
                    r.spec_mantissa() == if self.spec_mantissa() < 0 {
                        -self.spec_mantissa()
                    } else {
                        self.spec_mantissa()
                    },
            ;
        }
        r
    }

    /// The number with the opposite sign: the same digits and scale.
    pub closed spec fn spec_neg(self) -> Decimal {
        Decimal { mantissa: (-self.mantissa) as i128, scale: self.scale }
    }

    /// The number with the opposite sign.
    pub fn neg(&self) -> (r: Decimal)
        ensures
            r == self.spec_neg(),
            r.spec_mantissa() == -self.spec_mantissa(),
            r.spec_scale() == self.spec_scale(),
            r.units() == -self.units(),
            r.wf(),
    {
        proof {
            use_type_invariant(self);
        }
        let r = Decimal { mantissa: -self.mantissa, scale: self.scale };
        proof {
            assert(r.units() == -self.units()) by (nonlinear_arith)
                requires
                    r.units() == r.spec_mantissa() * pow10((MAX_SCALE - r.spec_scale()) as nat),
                    self.units() == self.spec_mantissa() * pow10(
                        (MAX_SCALE - self.spec_scale()) as nat,
                    ),
                    r.spec_scale() == self.spec_scale(),
                    r.spec_mantissa() == -self.spec_mantissa(),
            ;
        }
        r
    }

    /// `self + other` as `rust_decimal` computes it, `None` on overflow.
    pub fn checked_add(self, other: Decimal) -> (r: Option<Decimal>)
        ensures
            r == decimal_sum(self, other),
            r matches Some(d) ==> d.wf(),
    {
        proof {
            use_type_invariant(self);
            use_type_invariant(other);
        }
        let r = outside_add(self, other);
        proof {
            if let Some(d) = r {
                use_type_invariant(d);
            }
        }
        r
    }

    /// `self - other` as `rust_decimal` computes it, `None` on overflow.
    pub fn checked_sub(self, other: Decimal) -> (r: Option<Decimal>)
        ensures
            r == decimal_difference(self, other),
            r matches Some(d) ==> d.wf(),
    {
        proof {
            use_type_invariant(self);
            use_type_invariant(other);
        }
        let r = outside_sub(self, other);
        proof {
            if let Some(d) = r {
                use_type_invariant(d);
            }
        }
        r
    }

    /// `self * other` as `rust_decimal` computes it, `None` on overflow.
    pub fn checked_mul(self, other: Decimal) -> (r: Option<Decimal>)
        ensures
            r == decimal_product(self, other),
            r matches Some(d) ==> d.wf(),
    {
        proof {
            use_type_invariant(self);
            use_type_invariant(other);
        }
        let r = outside_mul(self, other);
        proof {
            if let Some(d) = r {
                use_type_invariant(d);
            }
        }
        r
    }

    /// `self / other` as `rust_decimal` computes it, `None` on overflow or
    /// when `other` is zero.
    pub fn checked_div(self, other: Decimal) -> (r: Option<Decimal>)
        ensures
            r == decimal_quotient(self, other),
            r matches Some(d) ==> d.wf(),
    {
        proof {
            use_type_invariant(self);
            use_type_invariant(other);
        }
        let r = outside_div(self, other);
        proof {
            if let Some(d) = r {
                use_type_invariant(d);
            }
        }
        r
    }

    /// Whether `self` is the smaller number.
    pub fn lt(&self, other: &Decimal) -> (r: bool)
        ensures
            r == (self.units() < other.units()),
    {
        proof {
            use_type_invariant(self);
            use_type_invariant(other);
        }
        outside_less(*self, *other)
    }

    /// Whether `self` is the larger number.
    pub fn gt(&self, other: &Decimal) -> (r: bool)
        ensures
            r == (self.units() > other.units()),
    {
        other.lt(self)
    }

    /// Whether `self` is not larger than `other`.
    pub fn le(&self, other: &Decimal) -> (r: bool)
        ensures
            r == (self.units() <= other.units()),
    {
        !other.lt(self)
    }

    /// Whether `self` is not smaller than `other`.
    pub fn ge(&self, other: &Decimal) -> (r: bool)
        ensures
            r == (self.units() >= other.units()),
    {
        !self.lt(other)
    }

    /// Whether the two are written alike: the same mantissa and the same
    /// scale, so `1.0` is not written as `1.00` is.
    pub fn identical(&self, other: &Decimal) -> (r: bool)
        ensures
            r == (*self == *other),
    {
        self.mantissa == other.mantissa && self.scale == other.scale
    }

    /// Whether the two are the same number, whatever their scales.
    pub fn same_number(&self, other: &Decimal) -> (r: bool)
        ensures
            r == (self.units() == other.units()),
    {
        !self.lt(other) && !other.lt(self)
    }

    /// The larger of the two; `self` where they are the same number.
    pub fn max(self, other: Decimal) -> (r: Decimal)
        ensures
            r == if self.units() < other.units() {
                other
            } else {
                self
            },
    {
        if self.lt(&other) {
            other
        } else {
            self
        }
    }

    /// The smaller of the two; `self` where they are the same number.
    pub fn min(self, other: Decimal) -> (r: Decimal)
        ensures
            r == if self.units() > other.units() {
                other
            } else {
                self
            },
    {
        if self.gt(&other) {
            other
        } else {
            self
        }
    }

    /// Reads a decimal from a text, `None` where `rust_decimal` reads none.
    pub fn parse(text: &str) -> (r: Option<Decimal>)
        ensures
            r == decimal_parse(text@),
            r matches Some(d) ==> d.wf(),
    {
        let r = outside_parse(text);
        proof {
            if let Some(d) = r {
                use_type_invariant(d);
            }
        }
        r
    }

    /// Prints the decimal with exactly `scale` digits after the point. The
    /// text reads back as the same mantissa and scale.
    pub fn to_text(&self) -> (r: String)
        ensures
            r@ == decimal_text(*self),
            decimal_parse(r@) == Some(*self),
    {
        proof {
            use_type_invariant(self);
        }
        outside_text(*self)
    }
}

impl PartialEq for Decimal {
    /// Two decimals are equal when they are the same number: `1.0 == 1.00`.
    fn eq(&self, other: &Decimal) -> (r: bool) {
        self.same_number(other)
    }
}

impl PartialEqSpecImpl for Decimal {
    open spec fn obeys_eq_spec() -> bool {
        true
    }

    open spec fn eq_spec(&self, other: &Decimal) -> bool {
        self.units() == other.units()
    }
}

/// The units of a decimal have the sign of its mantissa.
pub proof fn lemma_units_sign(d: Decimal)
    ensures
        (d.units() == 0) == (d.spec_mantissa() == 0),
        (d.units() < 0) == (d.spec_mantissa() < 0),
        (d.units() > 0) == (d.spec_mantissa() > 0),
{
    let p = pow10((MAX_SCALE - d.spec_scale()) as nat);
    lemma_pow10_positive((MAX_SCALE - d.spec_scale()) as nat);
    let m = d.spec_mantissa();
    assert((m * p == 0) == (m == 0) && (m * p < 0) == (m < 0) && (m * p > 0) == (m > 0))
        by (nonlinear_arith)
        requires
            p > 0,
    ;
}

/// `rust_decimal::Decimal::checked_add` on two decimals rebuilt from their
/// mantissa and scale. The contract names the result and claims nothing of its
/// value.
#[verifier::external_body]
fn outside_add(a: Decimal, b: Decimal) -> (r: Option<Decimal>)
    requires
        a.wf(),
        b.wf(),
    ensures
        r == decimal_sum(a, b),
{
    let x = rust_decimal::Decimal::from_i128_with_scale(a.mantissa, a.scale);
    let y = rust_decimal::Decimal::from_i128_with_scale(b.mantissa, b.scale);
    match x.checked_add(y) {
        Some(z) => Some(Decimal { mantissa: z.mantissa(), scale: z.scale() }),
        None => None,
    }
}

/// `rust_decimal::Decimal::checked_sub`. The contract names the result and
/// claims nothing of its value.
#[verifier::external_body]
fn outside_sub(a: Decimal, b: Decimal) -> (r: Option<Decimal>)
    requires
        a.wf(),
        b.wf(),
    ensures
        r == decimal_difference(a, b),
{
    let x = rust_decimal::Decimal::from_i128_with_scale(a.mantissa, a.scale);
    let y = rust_decimal::Decimal::from_i128_with_scale(b.mantissa, b.scale);
    match x.checked_sub(y) {
        Some(z) => Some(Decimal { mantissa: z.mantissa(), scale: z.scale() }),
        None => None,
    }
}

/// `rust_decimal::Decimal::checked_mul`. The contract names the result and
/// claims nothing of its value.
#[verifier::external_body]
fn outside_mul(a: Decimal, b: Decimal) -> (r: Option<Decimal>)
    requires
        a.wf(),
        b.wf(),
    ensures
        r == decimal_product(a, b),
{
    let x = rust_decimal::Decimal::from_i128_with_scale(a.mantissa, a.scale);
    let y = rust_decimal::Decimal::from_i128_with_scale(b.mantissa, b.scale);
    match x.checked_mul(y) {
        Some(z) => Some(Decimal { mantissa: z.mantissa(), scale: z.scale() }),
        None => None,
    }
}

/// `rust_decimal::Decimal::checked_div`, which gives `None` for a zero divisor
/// as for an overflow. The contract names the result and claims nothing of its
/// value.
#[verifier::external_body]
fn outside_div(a: Decimal, b: Decimal) -> (r: Option<Decimal>)
    requires
        a.wf(),
        b.wf(),
    ensures
        r == decimal_quotient(a, b),
{
    let x = rust_decimal::Decimal::from_i128_with_scale(a.mantissa, a.scale);
    let y = rust_decimal::Decimal::from_i128_with_scale(b.mantissa, b.scale);
    match x.checked_div(y) {
        Some(z) => Some(Decimal { mantissa: z.mantissa(), scale: z.scale() }),
        None => None,
    }
}

/// The `<` of `rust_decimal::Decimal`, which orders decimals as numbers: it
/// brings both to one scale and compares the mantissas, so `1.0 < 1.05` and
/// `1.0` is not below `1.00`.
#[verifier::external_body]
fn outside_less(a: Decimal, b: Decimal) -> (r: bool)
    requires
        a.wf(),
        b.wf(),
    ensures
        r == (a.units() < b.units()),
{
    let x = rust_decimal::Decimal::from_i128_with_scale(a.mantissa, a.scale);
    let y = rust_decimal::Decimal::from_i128_with_scale(b.mantissa, b.scale);
    x < y
}

/// The `FromStr` of `rust_decimal::Decimal`. The contract names the result and
/// claims nothing of its value.
#[verifier::external_body]
fn outside_parse(text: &str) -> (r: Option<Decimal>)
    ensures
        r == decimal_parse(text@),
{
    match <rust_decimal::Decimal as std::str::FromStr>::from_str(text) {
        Ok(z) => Some(Decimal { mantissa: z.mantissa(), scale: z.scale() }),
        Err(_) => None,
    }
}

/// The `Display` of `rust_decimal::Decimal`: an optional `-`, the digits of
/// the mantissa and a point before the last `scale` of them. The contract
/// names the text and claims that `FromStr` reads it back as the same
/// mantissa and scale.
#[verifier::external_body]
fn outside_text(d: Decimal) -> (r: String)
    requires
        d.wf(),
    ensures
        r@ == decimal_text(d),
        decimal_parse(r@) == Some(d),
{
    rust_decimal::Decimal::from_i128_with_scale(d.mantissa, d.scale).to_string()
}

} // verus!
