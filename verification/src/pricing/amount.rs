//! Exact decimal amounts: a signed 96-bit coefficient and a power-of-ten scale.
//!
//! The arithmetic itself is `rust_decimal`'s. Every call into it sits behind a
//! small function whose contract says, over integers, what the call returns on
//! the inputs it is given; the functions built on top are proved from those.

use vstd::prelude::*;

verus! {

/// Ten to the power `e`.
pub open spec fn pow10(e: nat) -> int
    decreases e,
{
    if e == 0 {
        1
    } else {
        10 * pow10((e - 1) as nat)
    }
}

/// The largest scale an amount can carry.
pub const MAX_SCALE: u32 = 28;

/// Two to the power 96: coefficients stay strictly below it in magnitude.
pub const COEFFICIENT_LIMIT: i128 = 0x1_0000_0000_0000_0000_0000_0000;

/// The magnitude of an integer.
pub open spec fn magnitude(m: int) -> int {
    if m < 0 {
        -m
    } else {
        m
    }
}

/// `m / d` rounded to the nearest integer, a tie going to the even neighbour.
/// The sign of `m` is kept; `d` is positive.
pub open spec fn div_half_even(m: int, d: int) -> int {
    let a = magnitude(m);
    let q = a / d;
    let r = a % d;
    let up = 2 * r > d || (2 * r == d && q % 2 == 1);
    let rounded = if up {
        q + 1
    } else {
        q
    };
    if m < 0 {
        -rounded
    } else {
        rounded
    }
}

/// The mathematical content of an amount: the number `mantissa / 10^scale`,
/// together with the scale it is written at.
pub struct Dec {
    pub mantissa: int,
    pub scale: nat,
}

impl Dec {
    /// Whether the coefficient and the scale are within what an amount can carry.
    pub open spec fn representable(self) -> bool {
        magnitude(self.mantissa) < COEFFICIENT_LIMIT as int && self.scale <= 28
    }

    /// The value counted in units of `10^-28`, the finest step an amount can express.
    /// Two amounts denote the same number exactly when their units agree.
    pub open spec fn units(self) -> int {
        self.mantissa * pow10((28 - self.scale) as nat)
    }

    /// The integer `n` at scale zero.
    pub open spec fn whole(n: int) -> Dec {
        Dec { mantissa: n, scale: 0 }
    }

    /// The coefficient this value has when written at the scale `to`, which is
    /// at least its own.
    pub open spec fn coefficient_at(self, to: nat) -> int {
        self.mantissa * pow10((to - self.scale) as nat)
    }

    /// The larger of two scales.
    pub open spec fn wider_scale(self, other: Dec) -> nat {
        if self.scale >= other.scale {
            self.scale
        } else {
            other.scale
        }
    }

    /// The same number with the opposite sign.
    pub open spec fn negated(self) -> Dec {
        Dec { mantissa: -self.mantissa, scale: self.scale }
    }

    /// The magnitude of the number, at the same scale.
    pub open spec fn absolute(self) -> Dec {
        Dec { mantissa: magnitude(self.mantissa), scale: self.scale }
    }

    /// Whether both values can be written at the wider of their two scales
    /// with coefficients below the limit.
    pub open spec fn aligns_with(self, other: Dec) -> bool {
        let s = self.wider_scale(other);
        &&& magnitude(self.coefficient_at(s)) < COEFFICIENT_LIMIT as int
        &&& magnitude(other.coefficient_at(s)) < COEFFICIENT_LIMIT as int
    }

    /// Whether the sum can be formed without loss: both values can be written
    /// at the wider scale, and so can their sum.
    pub open spec fn can_add(self, other: Dec) -> bool {
        let s = self.wider_scale(other);
        self.aligns_with(other) && magnitude(self.coefficient_at(s) + other.coefficient_at(s))
            < COEFFICIENT_LIMIT as int
    }

    /// Whether the difference can be formed without loss.
    pub open spec fn can_sub(self, other: Dec) -> bool {
        self.can_add(other.negated())
    }

    /// The sum. A zero operand leaves the other as it is written; otherwise the
    /// sum is written at the wider of the two scales.
    pub open spec fn plus(self, other: Dec) -> Dec {
        let s = self.wider_scale(other);
        if self.mantissa == 0 {
            other
        } else if other.mantissa == 0 {
            self
        } else {
            Dec { mantissa: self.coefficient_at(s) + other.coefficient_at(s), scale: s }
        }
    }

    /// The difference `self - other`.
    pub open spec fn minus(self, other: Dec) -> Dec {
        self.plus(other.negated())
    }

    /// Whether the product can be formed without loss: a factor is zero, or
    /// the scales add up to at most 28 and the product of the coefficients
    /// stays below the limit.
    pub open spec fn can_mul(self, other: Dec) -> bool {
        self.mantissa == 0 || other.mantissa == 0 || (self.scale + other.scale <= 28 && magnitude(
            self.mantissa * other.mantissa,
        ) < COEFFICIENT_LIMIT as int)
    }

    /// The product. A zero factor gives zero at scale zero; otherwise the scales add.
    pub open spec fn times(self, other: Dec) -> Dec {
        if self.mantissa == 0 || other.mantissa == 0 {
            Dec { mantissa: 0, scale: 0 }
        } else {
            Dec { mantissa: self.mantissa * other.mantissa, scale: self.scale + other.scale }
        }
    }

    /// Whether dividing `self` by `divisor` comes out even on the
    /// coefficients: the divisor is not zero, its coefficient fits 32 bits and
    /// divides that of `self` without remainder, and `self` is written with
    /// at least as many places as the divisor.
    pub open spec fn divides_evenly_by(self, divisor: Dec) -> bool {
        &&& divisor.mantissa != 0
        &&& magnitude(divisor.mantissa) < 0x1_0000_0000
        &&& self.scale >= divisor.scale
        &&& magnitude(self.mantissa) % magnitude(divisor.mantissa) == 0
    }

    /// The quotient of a division that comes out even: the quotient of the
    /// coefficients, written at the difference of the scales. Zero divided
    /// gives zero at scale zero.
    pub open spec fn even_quotient(self, divisor: Dec) -> Dec {
        if self.mantissa == 0 {
            Dec { mantissa: 0, scale: 0 }
        } else {
            let q = magnitude(self.mantissa) / magnitude(divisor.mantissa);
            Dec {
                mantissa: if (self.mantissa < 0) != (divisor.mantissa < 0) {
                    -q
                } else {
                    q
                },
                scale: (self.scale - divisor.scale) as nat,
            }
        }
    }

    /// The value rounded to `places` decimal places, half to even. A value
    /// already written with no more than `places` places is left as it is.
    pub open spec fn rounded(self, places: nat) -> Dec {
        if self.scale <= places {
            self
        } else {
            Dec {
                mantissa: div_half_even(self.mantissa, pow10((self.scale - places) as nat)),
                scale: places,
            }
        }
    }
}

/// The quotient that `rust_decimal` gives for `dividend / divisor`, each written
/// as a coefficient and a scale; `None` where it gives none (a zero divisor, or
/// a quotient too large to carry).
pub uninterp spec fn decimal_quotient(
    dividend_mantissa: int,
    dividend_scale: nat,
    divisor_mantissa: int,
    divisor_scale: nat,
) -> Option<(int, nat)>;

/// The amount that `rust_decimal` reads from a text, as a coefficient and a
/// scale; `None` where it rejects the text.
pub uninterp spec fn decimal_from_text(text: Seq<char>) -> Option<(int, nat)>;

/// The quotient of two values as the decimal library computes it.
pub open spec fn quotient(dividend: Dec, divisor: Dec) -> Option<Dec> {
    match decimal_quotient(
        dividend.mantissa,
        dividend.scale,
        divisor.mantissa,
        divisor.scale,
    ) {
        Some(q) => Some(Dec { mantissa: q.0, scale: q.1 }),
        None => None,
    }
}

/// Where `dividend` divides evenly by `divisor`, the decimal library's
/// quotient is the even quotient.
pub open spec fn even_division_is_exact(dividend: Dec, divisor: Dec) -> bool {
    dividend.divides_evenly_by(divisor) ==> quotient(dividend, divisor) == Some(
        dividend.even_quotient(divisor),
    )
}

/// The value the decimal library reads from a text.
pub open spec fn parsed(text: Seq<char>) -> Option<Dec> {
    match decimal_from_text(text) {
        Some(q) => Some(Dec { mantissa: q.0, scale: q.1 }),
        None => None,
    }
}

/// A power of ten is at least one.
pub proof fn lemma_pow10_positive(e: nat)
    ensures
        pow10(e) >= 1,
    decreases e,
{
    if e > 0 {
        lemma_pow10_positive((e - 1) as nat);
    }
}

/// Powers of ten grow with the exponent.
pub proof fn lemma_pow10_monotone(a: nat, b: nat)
    requires
        a <= b,
    ensures
        pow10(a) <= pow10(b),
    decreases b,
{
    if a < b {
        lemma_pow10_monotone(a, (b - 1) as nat);
        lemma_pow10_positive((b - 1) as nat);
    }
}

/// Exponents add when powers of ten are multiplied.
pub proof fn lemma_pow10_sum(a: nat, b: nat)
    ensures
        pow10(a + b) == pow10(a) * pow10(b),
    decreases a,
{
    if a > 0 {
        lemma_pow10_sum((a - 1) as nat, b);
        assert(pow10(a + b) == 10 * pow10(((a - 1) as nat) + b));
        assert(10 * (pow10((a - 1) as nat) * pow10(b)) == (10 * pow10((a - 1) as nat)) * pow10(b))
            by (nonlinear_arith);
    }
}

/// The value of ten to the power 28, the largest power an amount is scaled by.
pub proof fn lemma_pow10_28()
    ensures
        pow10(28) == 10_000_000_000_000_000_000_000_000_000int,
{
    reveal_with_fuel(pow10, 30);
}

/// Writing a value at a wider scale does not change how many units it counts.
pub proof fn lemma_units_at(d: Dec, to: nat)
    requires
        d.scale <= to <= 28,
    ensures
        d.units() == d.coefficient_at(to) * pow10((28 - to) as nat),
{
    lemma_pow10_sum((to - d.scale) as nat, (28 - to) as nat);
    assert(d.mantissa * (pow10((to - d.scale) as nat) * pow10((28 - to) as nat)) == (d.mantissa
        * pow10((to - d.scale) as nat)) * pow10((28 - to) as nat)) by (nonlinear_arith);
}

/// Addition is exact: the units of a sum are the sum of the units.
pub proof fn lemma_plus_units(a: Dec, b: Dec)
    requires
        a.scale <= 28,
        b.scale <= 28,
    ensures
        a.plus(b).units() == a.units() + b.units(),
        a.plus(b).scale <= a.wider_scale(b),
{
    let s = a.wider_scale(b);
    lemma_units_at(a, s);
    lemma_units_at(b, s);
    let p = pow10((28 - s) as nat);
    assert((a.coefficient_at(s) + b.coefficient_at(s)) * p == a.coefficient_at(s) * p
        + b.coefficient_at(s) * p) by (nonlinear_arith);
    if a.mantissa == 0 {
        assert(a.units() == 0) by (nonlinear_arith)
            requires
                a.units() == a.mantissa * pow10((28 - a.scale) as nat),
                a.mantissa == 0,
        ;
    } else if b.mantissa == 0 {
        assert(b.units() == 0) by (nonlinear_arith)
            requires
                b.units() == b.mantissa * pow10((28 - b.scale) as nat),
                b.mantissa == 0,
        ;
    }
}

/// Negation is exact.
pub proof fn lemma_negated_units(a: Dec)
    ensures
        a.negated().units() == -a.units(),
{
    assert((-a.mantissa) * pow10((28 - a.scale) as nat) == -(a.mantissa * pow10(
        (28 - a.scale) as nat,
    ))) by (nonlinear_arith);
}

/// Subtraction is exact: the units of a difference are the difference of the units.
pub proof fn lemma_minus_units(a: Dec, b: Dec)
    requires
        a.scale <= 28,
        b.scale <= 28,
    ensures
        a.minus(b).units() == a.units() - b.units(),
        a.minus(b).scale <= a.wider_scale(b),
{
    lemma_negated_units(b);
    lemma_plus_units(a, b.negated());
}

/// Multiplying by a whole number multiplies the units.
pub proof fn lemma_times_whole_units(a: Dec, n: int)
    requires
        a.scale <= 28,
    ensures
        a.times(Dec::whole(n)).units() == a.units() * n,
        a.times(Dec::whole(n)).scale <= a.scale,
{
    let p = pow10((28 - a.scale) as nat);
    if a.mantissa == 0 || n == 0 {
        lemma_pow10_positive(28);
        assert(a.times(Dec::whole(n)).units() == 0) by (nonlinear_arith)
            requires
                a.times(Dec::whole(n)).units() == 0 * pow10(28),
        ;
        assert(a.mantissa * p * n == 0) by (nonlinear_arith)
            requires
                a.mantissa == 0 || n == 0,
        ;
    } else {
        assert((a.mantissa * n) * p == (a.mantissa * p) * n) by (nonlinear_arith);
    }
}

/// A decimal amount `mantissa / 10^scale`, with a coefficient below `2^96` in
/// magnitude and a scale of at most 28.
#[derive(Clone, Copy, Debug)]
pub struct Amount {
    mantissa: i128,
    scale: u32,
}

impl View for Amount {
    type V = Dec;

    closed spec fn view(&self) -> Dec {
        Dec { mantissa: self.mantissa as int, scale: self.scale as nat }
    }
}

/// Ten to the power `e`, for the scales an amount can have.
pub(crate) fn power_of_ten(e: u32) -> (r: i128)
    requires
        e <= 28,
    ensures
        r == pow10(e as nat),
        1 <= r <= 10_000_000_000_000_000_000_000_000_000,
{
    let mut r: i128 = 1;
    let mut i: u32 = 0;
    while i < e
        invariant
            i <= e <= 28,
            r == pow10(i as nat),
            1 <= r,
        decreases e - i,
    {
        proof {
            lemma_pow10_monotone((i + 1) as nat, 28);
            lemma_pow10_28();
        }
        r = r * 10;
        i = i + 1;
    }
    proof {
        lemma_pow10_monotone(e as nat, 28);
        lemma_pow10_28();
    }
    r
}

/// `m * 10^by` where that stays below the coefficient limit in magnitude.
fn scaled_up(m: i128, by: u32) -> (r: Option<i128>)
    requires
        by <= 28,
        magnitude(m as int) < COEFFICIENT_LIMIT as int,
    ensures
        r.is_some() <==> magnitude(m * pow10(by as nat)) < COEFFICIENT_LIMIT as int,
        r matches Some(v) ==> v == m * pow10(by as nat),
{
    let p = power_of_ten(by);
    let bound: i128 = (COEFFICIENT_LIMIT - 1) / p;
    let a: i128 = if m < 0 {
        -m
    } else {
        m
    };
    if a <= bound {
        proof {
            assert(a * p <= COEFFICIENT_LIMIT - 1) by (nonlinear_arith)
                requires
                    0 <= a <= bound,
                    p >= 1,
                    bound == (COEFFICIENT_LIMIT - 1) / (p as int),
            ;
            assert(magnitude(m * p) == a * p) by (nonlinear_arith)
                requires
                    a == magnitude(m as int),
                    p >= 1,
            ;
            assert(m * p == if m < 0 {
                -(a * p)
            } else {
                a * p
            }) by (nonlinear_arith)
                requires
                    a == magnitude(m as int),
            ;
        }
        Some(m * p)
    } else {
        proof {
            assert(a * p > COEFFICIENT_LIMIT - 1) by (nonlinear_arith)
                requires
                    a > bound,
                    p >= 1,
                    bound == (COEFFICIENT_LIMIT - 1) / (p as int),
            ;
            assert(magnitude(m * p) == a * p) by (nonlinear_arith)
                requires
                    a == magnitude(m as int),
                    p >= 1,
            ;
        }
        None
    }
}

/// Rounds with `rust_decimal`'s `Decimal::round_dp_with_strategy` under
/// `RoundingStrategy::MidpointNearestEven`: a value with no more than `places`
/// places comes back unchanged; otherwise the coefficient is divided by the
/// power of ten that separates the two scales, to the nearest integer and, at
/// an exact half, to the even one, and the result is written at `places`.
#[verifier::external_body]
fn decimal_round(a: Amount, places: u32) -> (r: Amount)
    ensures
        r@ == a@.rounded(places as nat),
{
    let d = rust_decimal::Decimal::from_i128_with_scale(a.mantissa, a.scale);
    let q = d.round_dp_with_strategy(places, rust_decimal::RoundingStrategy::MidpointNearestEven);
    Amount { mantissa: q.mantissa(), scale: q.scale() }
}

/// Adds with `rust_decimal`'s `Decimal::checked_add`. Where both operands and
/// their sum fit at the wider scale, the sum is exact: a zero operand returns
/// the other one as written, otherwise the aligned coefficients are added.
#[verifier::external_body]
fn decimal_add(a: Amount, b: Amount) -> (r: Option<Amount>)
    ensures
        a@.can_add(b@) ==> r.is_some(),
        a@.can_add(b@) ==> r.unwrap()@ == a@.plus(b@),
{
    let x = rust_decimal::Decimal::from_i128_with_scale(a.mantissa, a.scale);
    let y = rust_decimal::Decimal::from_i128_with_scale(b.mantissa, b.scale);
    match x.checked_add(y) {
        Some(q) => Some(Amount { mantissa: q.mantissa(), scale: q.scale() }),
        None => None,
    }
}

/// Subtracts with `rust_decimal`'s `Decimal::checked_sub`. Where both operands
/// and their difference fit at the wider scale, the difference is exact: from
/// zero it is the negated subtrahend as written, a zero subtrahend returns the
/// minuend as written, otherwise the aligned coefficients are subtracted.
#[verifier::external_body]
fn decimal_sub(a: Amount, b: Amount) -> (r: Option<Amount>)
    ensures
        a@.can_sub(b@) ==> r.is_some(),
        a@.can_sub(b@) ==> r.unwrap()@ == a@.minus(b@),
{
    let x = rust_decimal::Decimal::from_i128_with_scale(a.mantissa, a.scale);
    let y = rust_decimal::Decimal::from_i128_with_scale(b.mantissa, b.scale);
    match x.checked_sub(y) {
        Some(q) => Some(Amount { mantissa: q.mantissa(), scale: q.scale() }),
        None => None,
    }
}

/// Multiplies with `rust_decimal`'s `Decimal::checked_mul`. A zero factor gives
/// zero at scale zero. Otherwise, where the scales add up to at most 28 and the
/// product of the coefficients stays below the limit, the product is exact and
/// written at the sum of the scales.
#[verifier::external_body]
fn decimal_mul(a: Amount, b: Amount) -> (r: Option<Amount>)
    ensures
        a@.can_mul(b@) ==> r.is_some(),
        a@.can_mul(b@) ==> r.unwrap()@ == a@.times(b@),
{
    let x = rust_decimal::Decimal::from_i128_with_scale(a.mantissa, a.scale);
    let y = rust_decimal::Decimal::from_i128_with_scale(b.mantissa, b.scale);
    match x.checked_mul(y) {
        Some(q) => Some(Amount { mantissa: q.mantissa(), scale: q.scale() }),
        None => None,
    }
}

/// Divides with `rust_decimal`'s `Decimal::checked_div`. The quotient is a
/// function of the two operands; it is named, not spelled out. A zero divisor
/// gives none. Where the divisor's coefficient fits 32 bits and divides the
/// dividend's without remainder, and the dividend has at least the divisor's
/// scale, the division stops at once: the quotient is that of the
/// coefficients, at the difference of the scales. Zero divided by anything
/// but zero is zero at scale zero.
#[verifier::external_body]
fn decimal_div(a: Amount, b: Amount) -> (r: Option<Amount>)
    ensures
        decimal_quotient(a@.mantissa, a@.scale, b@.mantissa, b@.scale) == match r {
            Some(q) => Some((q@.mantissa, q@.scale)),
            None => None,
        },
        b@.mantissa == 0 ==> r.is_none(),
        a@.divides_evenly_by(b@) ==> r.is_some(),
        a@.divides_evenly_by(b@) ==> r.unwrap()@ == a@.even_quotient(b@),
{
    let x = rust_decimal::Decimal::from_i128_with_scale(a.mantissa, a.scale);
    let y = rust_decimal::Decimal::from_i128_with_scale(b.mantissa, b.scale);
    match x.checked_div(y) {
        Some(q) => Some(Amount { mantissa: q.mantissa(), scale: q.scale() }),
        None => None,
    }
}

/// Reads a decimal number with `rust_decimal`'s `Decimal::from_str`. What it
/// reads is a function of the text; it is named, not spelled out.
#[verifier::external_body]
fn decimal_parse(text: &str) -> (r: Option<Amount>)
    ensures
        decimal_from_text(text@) == match r {
            Some(q) => Some((q@.mantissa, q@.scale)),
            None => None,
        },
{
    match <rust_decimal::Decimal as core::str::FromStr>::from_str(text) {
        Ok(q) => Some(Amount { mantissa: q.mantissa(), scale: q.scale() }),
        Err(_) => None,
    }
}

impl Amount {
    #[verifier::type_invariant]
    spec fn representable(self) -> bool {
        self@.representable()
    }

    /// The amount `mantissa / 10^scale`; `None` where the coefficient or the
    /// scale is out of range.
    pub fn from_parts(mantissa: i128, scale: u32) -> (r: Option<Amount>)
        ensures
            r.is_some() <==> (Dec { mantissa: mantissa as int, scale: scale as nat }).representable(),
            r matches Some(a) ==> a@ == (Dec { mantissa: mantissa as int, scale: scale as nat }),
    {
        if scale <= MAX_SCALE && -COEFFICIENT_LIMIT < mantissa && mantissa < COEFFICIENT_LIMIT {
            Some(Amount { mantissa, scale })
        } else {
            None
        }
    }

    /// The amount `num / 10^scale`.
    pub fn new(num: i64, scale: u32) -> (r: Amount)
        requires
            scale <= 28,
        ensures
            r@ == (Dec { mantissa: num as int, scale: scale as nat }),
    {
        Amount { mantissa: num as i128, scale }
    }

    /// Zero, at scale zero.
    pub fn zero() -> (r: Amount)
        ensures
            r@ == Dec::whole(0),
    {
        Amount { mantissa: 0, scale: 0 }
    }

    /// The integer `n`, at scale zero.
    pub fn from_i32(n: i32) -> (r: Amount)
        ensures
            r@ == Dec::whole(n as int),
    {
        Amount { mantissa: n as i128, scale: 0 }
    }

    /// The integer `n`, at scale zero.
    pub fn from_i64(n: i64) -> (r: Amount)
        ensures
            r@ == Dec::whole(n as int),
    {
        Amount { mantissa: n as i128, scale: 0 }
    }

    /// The coefficient. It is below `2^96` in magnitude.
    pub fn mantissa(&self) -> (r: i128)
        ensures
            r == self@.mantissa,
            self@.representable(),
    {
        proof {
            use_type_invariant(self);
        }
        self.mantissa
    }

    /// The number of decimal places the amount is written with, at most 28.
    pub fn scale(&self) -> (r: u32)
        ensures
            r == self@.scale,
            self@.representable(),
    {
        proof {
            use_type_invariant(self);
        }
        self.scale
    }

    pub fn is_zero(&self) -> (r: bool)
        ensures
            r == (self@.mantissa == 0),
    {
        self.mantissa == 0
    }

    /// Whether the amount is below zero.
    pub fn is_negative(&self) -> (r: bool)
        ensures
            r == (self@.mantissa < 0),
    {
        self.mantissa < 0
    }

    /// The magnitude, at the same scale.
    pub fn abs(&self) -> (r: Amount)
        ensures
            r@ == self@.absolute(),
    {
        proof {
            use_type_invariant(self);
        }
        if self.mantissa < 0 {
            Amount { mantissa: -self.mantissa, scale: self.scale }
        } else {
            *self
        }
    }

    /// The amount rounded to `places` decimal places, half to even.
    pub fn round_dp(&self, places: u32) -> (r: Amount)
        ensures
            r@ == self@.rounded(places as nat),
    {
        decimal_round(*self, places)
    }

    /// Whether `self + other` is an amount.
    pub fn can_add(&self, other: &Amount) -> (r: bool)
        ensures
            r == self@.can_add(other@),
    {
        proof {
            use_type_invariant(self);
            use_type_invariant(other);
        }
        let s = if self.scale >= other.scale {
            self.scale
        } else {
            other.scale
        };
        match (scaled_up(self.mantissa, s - self.scale), scaled_up(other.mantissa, s - other.scale)) {
            (Some(x), Some(y)) => {
                let sum: i128 = x + y;
                -COEFFICIENT_LIMIT < sum && sum < COEFFICIENT_LIMIT
            },
            _ => false,
        }
    }

    /// Whether `self - other` is an amount.
    pub fn can_sub(&self, other: &Amount) -> (r: bool)
        ensures
            r == self@.can_sub(other@),
    {
        proof {
            use_type_invariant(other);
        }
        let negated = Amount { mantissa: -other.mantissa, scale: other.scale };
        self.can_add(&negated)
    }

    /// Whether `self * other` is an amount.
    pub fn can_mul(&self, other: &Amount) -> (r: bool)
        ensures
            r == self@.can_mul(other@),
    {
        proof {
            use_type_invariant(self);
            use_type_invariant(other);
        }
        if self.mantissa == 0 || other.mantissa == 0 {
            return true;
        }
        if self.scale + other.scale > MAX_SCALE {
            return false;
        }
        match self.mantissa.checked_mul(other.mantissa) {
            Some(p) => -COEFFICIENT_LIMIT < p && p < COEFFICIENT_LIMIT,
            None => {
                false
            },
        }
    }

    /// The exact sum, or `None` where the sum is not an amount.
    pub fn checked_add(&self, other: &Amount) -> (r: Option<Amount>)
        ensures
            r.is_some() <==> self@.can_add(other@),
            r matches Some(sum) ==> sum@ == self@.plus(other@),
    {
        if self.can_add(other) {
            decimal_add(*self, *other)
        } else {
            None
        }
    }

    /// The exact difference, or `None` where the difference is not an amount.
    pub fn checked_sub(&self, other: &Amount) -> (r: Option<Amount>)
        ensures
            r.is_some() <==> self@.can_sub(other@),
            r matches Some(difference) ==> difference@ == self@.minus(other@),
    {
        if self.can_sub(other) {
            decimal_sub(*self, *other)
        } else {
            None
        }
    }

    /// The exact product, or `None` where the product is not an amount.
    pub fn checked_mul(&self, other: &Amount) -> (r: Option<Amount>)
        ensures
            r.is_some() <==> self@.can_mul(other@),
            r matches Some(product) ==> product@ == self@.times(other@),
    {
        if self.can_mul(other) {
            decimal_mul(*self, *other)
        } else {
            None
        }
    }

    /// The quotient as the decimal library computes it; `None` for a zero
    /// divisor and wherever the library gives no quotient. A division that
    /// comes out even on the coefficients gives the even quotient.
    pub fn checked_div(&self, other: &Amount) -> (r: Option<Amount>)
        ensures
            match r {
                Some(q) => quotient(self@, other@) == Some(q@) && q@.representable(),
                None => quotient(self@, other@).is_none(),
            },
            other@.mantissa == 0 ==> r.is_none(),
            even_division_is_exact(self@, other@),
    {
        let r = decimal_div(*self, *other);
        proof {
            match r {
                Some(q) => {
                    use_type_invariant(q);
                },
                None => {},
            }
        }
        r
    }

    /// The amount that a text spells, as the decimal library reads it.
    pub fn parse(text: &str) -> (r: Option<Amount>)
        ensures
            match r {
                Some(q) => parsed(text@) == Some(q@),
                None => parsed(text@).is_none(),
            },
    {
        decimal_parse(text)
    }
}

/// Two amounts are equal when they denote the same number, however each is
/// written: `2.50` equals `2.5`.
impl PartialEq for Amount {
    fn eq(&self, other: &Amount) -> (r: bool) {
        proof {
            use_type_invariant(self);
            use_type_invariant(other);
        }
        let s = if self.scale >= other.scale {
            self.scale
        } else {
            other.scale
        };
        let x = scaled_up(self.mantissa, s - self.scale);
        let y = scaled_up(other.mantissa, s - other.scale);
        proof {
            let p = pow10((28 - s) as nat);
            let cx = self@.coefficient_at(s as nat);
            let cy = other@.coefficient_at(s as nat);
            lemma_units_at(self@, s as nat);
            lemma_units_at(other@, s as nat);
            lemma_pow10_positive((28 - s) as nat);
            assert(pow10(0) == 1);
            assert((cx * p == cy * p) <==> cx == cy) by (nonlinear_arith)
                requires
                    p >= 1,
            ;
            if s == self.scale {
                assert(cx == self.mantissa * 1);
            }
            if s == other.scale {
                assert(cy == other.mantissa * 1);
            }
        }
        match (x, y) {
            (Some(a), Some(b)) => a == b,
            _ => false,
        }
    }
}

impl vstd::std_specs::cmp::PartialEqSpecImpl for Amount {
    open spec fn obeys_eq_spec() -> bool {
        true
    }

    open spec fn eq_spec(&self, other: &Amount) -> bool {
        self@.units() == other@.units()
    }
}

} // verus!
