//! Exact decimal quantities (damage, block, power amounts), computed with `rust_decimal`.
//!
//! A quantity is held as the two plain values a `rust_decimal::Decimal` is made
//! of: a mantissa and a scale; its value is `mantissa / 10^scale`. Every
//! arithmetic step converts to `Decimal`, lets `rust_decimal` compute, and
//! reads the parts back.
use rust_decimal::Decimal;
use vstd::prelude::*;

verus! {

/// `10^n`.
pub open spec fn pow10(n: nat) -> int
    decreases n,
{
    if n == 0 {
        1
    } else {
        10 * pow10((n - 1) as nat)
    }
}

pub proof fn lemma_pow10_positive(n: nat)
    ensures
        pow10(n) >= 1,
    decreases n,
{
    if n > 0 {
        lemma_pow10_positive((n - 1) as nat);
    }
}

/// Largest magnitude a `Decimal` mantissa can hold (96 bits).
pub open spec fn max_mantissa() -> int {
    0xFFFF_FFFF_FFFF_FFFF_FFFF_FFFFint
}

/// Largest scale a `Decimal` can hold.
pub open spec fn max_scale() -> int {
    28
}

/// A decimal quantity: `mantissa / 10^scale`.
#[derive(Clone, Copy, Debug, PartialEq, Eq, Structural)]
pub struct Amount {
    pub mantissa: i128,
    pub scale: u32,
}

/// The parts of an optional quantity, as plain integers.
pub open spec fn option_parts(a: Option<Amount>) -> Option<(int, int)> {
    match a {
        Some(x) => Some((x.mantissa as int, x.scale as int)),
        None => None,
    }
}

/// A quantity read back from its parts.
pub open spec fn amount_of_parts(p: Option<(int, int)>) -> Option<Amount> {
    match p {
        Some((m, s)) => Some(Amount { mantissa: m as i128, scale: s as u32 }),
        None => None,
    }
}

/// Reading a quantity's parts back gives the quantity.
pub proof fn lemma_parts_round_trip(a: Option<Amount>)
    requires
        a matches Some(x) ==> x.wf(),
    ensures
        amount_of_parts(option_parts(a)) == a,
{
}

/// What `Decimal::checked_mul` returns for the two operands, read back as parts.
pub uninterp spec fn decimal_product(am: int, ascale: int, bm: int, bscale: int) -> Option<(int, int)>;

/// What `Decimal::checked_add` returns for the two operands, read back as parts.
pub uninterp spec fn decimal_sum(am: int, ascale: int, bm: int, bscale: int) -> Option<(int, int)>;

/// What `Decimal::checked_div` returns for the two operands, read back as parts.
pub uninterp spec fn decimal_quotient(am: int, ascale: int, bm: int, bscale: int) -> Option<(int, int)>;

impl Amount {
    /// `self * other` as `rust_decimal` computes it; `None` where it overflows.
    pub open spec fn spec_times(self, other: Amount) -> Option<Amount> {
        amount_of_parts(decimal_product(self.mantissa as int, self.scale as int, other.mantissa as int, other.scale as int))
    }

    /// `self + other` as `rust_decimal` computes it; `None` where it overflows.
    pub open spec fn spec_plus(self, other: Amount) -> Option<Amount> {
        amount_of_parts(decimal_sum(self.mantissa as int, self.scale as int, other.mantissa as int, other.scale as int))
    }

    /// `self / other` as `rust_decimal` computes it; `None` for a zero divisor or an overflow.
    pub open spec fn spec_over(self, other: Amount) -> Option<Amount> {
        amount_of_parts(decimal_quotient(self.mantissa as int, self.scale as int, other.mantissa as int, other.scale as int))
    }

    /// The parts lie in the range of a `Decimal`.
    pub open spec fn wf(self) -> bool {
        &&& 0 <= self.scale <= max_scale()
        &&& -max_mantissa() <= self.mantissa <= max_mantissa()
    }

    /// The whole number `v`, at scale 0.
    pub open spec fn whole(v: int) -> Amount {
        Amount { mantissa: v as i128, scale: 0 }
    }

    /// `self` and `other` are both read at the larger of the two scales.
    pub open spec fn common_scale(self, other: Amount) -> nat {
        if self.scale >= other.scale {
            self.scale as nat
        } else {
            other.scale as nat
        }
    }

    pub open spec fn at_scale(self, s: nat) -> int {
        self.mantissa * pow10((s - self.scale) as nat)
    }

    /// The value of `self` is below the value of `other`.
    pub open spec fn value_lt(self, other: Amount) -> bool {
        let s = self.common_scale(other);
        self.at_scale(s) < other.at_scale(s)
    }

    /// Multiplying `self` by `other` keeps every digit.
    pub open spec fn exact_product(self, other: Amount) -> bool {
        &&& self.scale + other.scale <= max_scale()
        &&& -max_mantissa() <= self.mantissa * other.mantissa <= max_mantissa()
    }

    /// The exact product, in the form `rust_decimal` gives it.
    pub open spec fn spec_product(self, other: Amount) -> Amount {
        if self.mantissa * other.mantissa == 0 {
            Amount { mantissa: 0, scale: 0 }
        } else {
            Amount {
                mantissa: (self.mantissa * other.mantissa) as i128,
                scale: (self.scale + other.scale) as u32,
            }
        }
    }

    /// The value truncated toward zero.
    pub open spec fn spec_trunc(self) -> int {
        let p = pow10(self.scale as nat);
        let m = self.mantissa as int;
        if m >= 0 {
            m / p
        } else {
            -((-m) / p)
        }
    }

    pub fn from_i32(v: i32) -> (r: Amount)
        ensures
            r == Amount::whole(v as int),
            r.wf(),
    {
        decimal_from_i32(v)
    }

    /// `num / 10^scale`.
    pub fn new(num: i64, scale: u32) -> (r: Amount)
        requires
            scale <= max_scale(),
        ensures
            r == (Amount { mantissa: num as i128, scale }),
            r.wf(),
    {
        decimal_new(num, scale)
    }

    pub fn checked_mul(self, other: Amount) -> (r: Option<Amount>)
        requires
            self.wf(),
            other.wf(),
        ensures
            option_parts(r) == decimal_product(
                self.mantissa as int,
                self.scale as int,
                other.mantissa as int,
                other.scale as int,
            ),
            r == self.spec_times(other),
            self.exact_product(other) ==> r == Some(self.spec_product(other)),
            r matches Some(p) ==> p.wf(),
    {
        let r = decimal_checked_mul(self, other);
        proof {
            lemma_parts_round_trip(r);
        }
        r
    }

    pub fn checked_add(self, other: Amount) -> (r: Option<Amount>)
        requires
            self.wf(),
            other.wf(),
        ensures
            option_parts(r) == decimal_sum(
                self.mantissa as int,
                self.scale as int,
                other.mantissa as int,
                other.scale as int,
            ),
            self.mantissa == 0 ==> r == Some(other),
            other.mantissa == 0 && self.mantissa != 0 ==> r == Some(self),
            self.scale == 0 && other.scale == 0 && self.mantissa != 0 && other.mantissa != 0
                && -max_mantissa() <= self.mantissa + other.mantissa <= max_mantissa()
                ==> r == Some(Amount { mantissa: (self.mantissa + other.mantissa) as i128, scale: 0 }),
            r == self.spec_plus(other),
            r matches Some(p) ==> p.wf(),
    {
        let r = decimal_checked_add(self, other);
        proof {
            lemma_parts_round_trip(r);
        }
        r
    }

    pub fn checked_div(self, other: Amount) -> (r: Option<Amount>)
        requires
            self.wf(),
            other.wf(),
        ensures
            option_parts(r) == decimal_quotient(
                self.mantissa as int,
                self.scale as int,
                other.mantissa as int,
                other.scale as int,
            ),
            other.mantissa == 0 ==> r is None,
            r == self.spec_over(other),
            r matches Some(p) ==> p.wf(),
    {
        let r = decimal_checked_div(self, other);
        proof {
            lemma_parts_round_trip(r);
        }
        r
    }

    pub fn lt(self, other: Amount) -> (r: bool)
        requires
            self.wf(),
            other.wf(),
        ensures
            r == self.value_lt(other),
    {
        decimal_lt(self, other)
    }

    /// The value truncated toward zero, at scale 0.
    pub fn trunc(self) -> (r: Amount)
        requires
            self.wf(),
        ensures
            r == Amount::whole(self.spec_trunc()),
            r.wf(),
    {
        decimal_trunc(self)
    }
}

/// Calls `Decimal::from(i32)`. Per its source (`FromPrimitive::from_i32`) the
/// result is the integer at scale 0.
#[verifier::external_body]
fn decimal_from_i32(v: i32) -> (r: Amount)
    ensures
        r == Amount::whole(v as int),
        r.wf(),
{
    let d = Decimal::from(v);
    Amount { mantissa: d.mantissa(), scale: d.scale() }
}

/// Calls `Decimal::new`, which panics above the maximum scale and otherwise
/// keeps mantissa and scale as given.
#[verifier::external_body]
fn decimal_new(num: i64, scale: u32) -> (r: Amount)
    requires
        scale <= max_scale(),
    ensures
        r == (Amount { mantissa: num as i128, scale }),
        r.wf(),
{
    let d = Decimal::new(num, scale);
    Amount { mantissa: d.mantissa(), scale: d.scale() }
}

/// Calls `Decimal::checked_mul`. Its source (`ops::mul_impl`) returns zero at
/// scale 0 when an operand is zero, and otherwise the product of the
/// mantissas at the sum of the scales unless that product needs more than 96
/// bits or the scale more than 28. Outside that range the result is left to
/// the name `decimal_product`.
#[verifier::external_body]
fn decimal_checked_mul(a: Amount, b: Amount) -> (r: Option<Amount>)
    requires
        a.wf(),
        b.wf(),
    ensures
        option_parts(r) == decimal_product(a.mantissa as int, a.scale as int, b.mantissa as int, b.scale as int),
        a.exact_product(b) ==> r == Some(a.spec_product(b)),
        r matches Some(p) ==> p.wf(),
{
    let x = Decimal::from_i128_with_scale(a.mantissa, a.scale);
    let y = Decimal::from_i128_with_scale(b.mantissa, b.scale);
    match x.checked_mul(y) {
        Some(d) => Some(Amount { mantissa: d.mantissa(), scale: d.scale() }),
        None => None,
    }
}

/// Calls `Decimal::checked_add`. Its source (`ops::add_impl`) hands back the
/// other operand unchanged when one is zero, and adds two nonzero mantissas
/// of scale 0 exactly when the sum fits in 96 bits. Everything else is left
/// to the name `decimal_sum`.
#[verifier::external_body]
fn decimal_checked_add(a: Amount, b: Amount) -> (r: Option<Amount>)
    requires
        a.wf(),
        b.wf(),
    ensures
        option_parts(r) == decimal_sum(a.mantissa as int, a.scale as int, b.mantissa as int, b.scale as int),
        a.mantissa == 0 ==> r == Some(b),
        b.mantissa == 0 && a.mantissa != 0 ==> r == Some(a),
        a.scale == 0 && b.scale == 0 && a.mantissa != 0 && b.mantissa != 0
            && -max_mantissa() <= a.mantissa + b.mantissa <= max_mantissa()
            ==> r == Some(Amount { mantissa: (a.mantissa + b.mantissa) as i128, scale: 0 }),
        r matches Some(p) ==> p.wf(),
{
    let x = Decimal::from_i128_with_scale(a.mantissa, a.scale);
    let y = Decimal::from_i128_with_scale(b.mantissa, b.scale);
    match x.checked_add(y) {
        Some(d) => Some(Amount { mantissa: d.mantissa(), scale: d.scale() }),
        None => None,
    }
}

/// Calls `Decimal::checked_div`, which yields `None` for a zero divisor. The
/// digits of a quotient are left to the name `decimal_quotient`.
#[verifier::external_body]
fn decimal_checked_div(a: Amount, b: Amount) -> (r: Option<Amount>)
    requires
        a.wf(),
        b.wf(),
    ensures
        option_parts(r) == decimal_quotient(a.mantissa as int, a.scale as int, b.mantissa as int, b.scale as int),
        b.mantissa == 0 ==> r is None,
        r matches Some(p) ==> p.wf(),
{
    let x = Decimal::from_i128_with_scale(a.mantissa, a.scale);
    let y = Decimal::from_i128_with_scale(b.mantissa, b.scale);
    match x.checked_div(y) {
        Some(d) => Some(Amount { mantissa: d.mantissa(), scale: d.scale() }),
        None => None,
    }
}

/// Calls `<` on two `Decimal`s, which compares their values.
#[verifier::external_body]
fn decimal_lt(a: Amount, b: Amount) -> (r: bool)
    requires
        a.wf(),
        b.wf(),
    ensures
        r == a.value_lt(b),
{
    Decimal::from_i128_with_scale(a.mantissa, a.scale) < Decimal::from_i128_with_scale(b.mantissa, b.scale)
}

/// Calls `Decimal::trunc`, which drops the fractional digits (toward zero)
/// and leaves scale 0.
#[verifier::external_body]
fn decimal_trunc(a: Amount) -> (r: Amount)
    requires
        a.wf(),
    ensures
        r == Amount::whole(a.spec_trunc()),
        r.wf(),
{
    let d = Decimal::from_i128_with_scale(a.mantissa, a.scale).trunc();
    Amount { mantissa: d.mantissa(), scale: d.scale() }
}

} // verus!
