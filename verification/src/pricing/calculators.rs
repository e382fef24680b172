//! Money math: rounding, splitting a shared total, and aggregating totals.

use vstd::prelude::*;
use vstd::arithmetic::div_mod::{lemma_div_multiples_vanish_quotient, lemma_mod_multiples_basic};
use crate::pricing::amount::{
    even_division_is_exact, lemma_minus_units, lemma_plus_units, lemma_pow10_positive,
    lemma_pow10_sum, lemma_times_whole_units, magnitude, pow10, quotient, Amount, Dec,
};
use crate::pricing::responses::{Money, MoneyResponse};
use crate::text::same_text;

verus! {

/// Rounds to `places` decimal places; a value exactly halfway between two
/// neighbours goes to the one whose last digit is even.
pub fn round_money(amount: Amount, places: u32) -> (r: Amount)
    ensures
        r@ == amount@.rounded(places as nat),
{
    amount.round_dp(places)
}

/// The smallest currency step, one hundredth, with the given sign.
pub open spec fn hundredth(negative: bool) -> Dec {
    Dec {
        mantissa: if negative {
            -1
        } else {
            1
        },
        scale: 2,
    }
}

/// How many whole hundredths the magnitude of `d` holds.
pub open spec fn whole_hundredths(d: Dec) -> int {
    magnitude(d.units()) / pow10(26)
}

/// The share each participant starts from: the total divided by the number of
/// participants, rounded to two places.
pub open spec fn base_share(total: Dec, n: int) -> Option<Dec> {
    match quotient(total, Dec::whole(n)) {
        Some(q) => Some(q.rounded(2)),
        None => None,
    }
}

/// What the base shares leave over or overshoot: `total - base * n`.
pub open spec fn allocation_remainder(total: Dec, base: Dec, n: int) -> Dec {
    total.minus(base.times(Dec::whole(n)))
}

/// How many of the first shares move by one hundredth: the whole hundredths in
/// the remainder, but no more than there are shares.
pub open spec fn adjusted_count(total: Dec, base: Dec, n: int) -> int {
    let k = whole_hundredths(allocation_remainder(total, base, n));
    if k > n {
        n
    } else {
        k
    }
}

/// The share that moved by one hundredth toward the remainder.
pub open spec fn adjusted_share(total: Dec, base: Dec, n: int) -> Dec {
    base.plus(hundredth(allocation_remainder(total, base, n).mantissa < 0))
}

/// Whether every step that follows the base share is an amount: the base
/// share times the number of participants, the remainder, and the adjusted
/// share where any share is adjusted.
pub open spec fn allocation_fits(total: Dec, base: Dec, n: int) -> bool {
    &&& base.can_mul(Dec::whole(n))
    &&& total.can_sub(base.times(Dec::whole(n)))
    &&& (adjusted_count(total, base, n) > 0 ==> base.can_add(
        hundredth(allocation_remainder(total, base, n).mantissa < 0),
    ))
}

/// The share of participant `i` when `total` is split among `n` from the base
/// share `base`: the first shares are adjusted, the others are the base share.
pub open spec fn share_from(total: Dec, base: Dec, n: int, i: int) -> Dec {
    if i < adjusted_count(total, base, n) {
        adjusted_share(total, base, n)
    } else {
        base
    }
}

/// Whether every step of splitting `total` among `n > 0` participants is an
/// amount: the quotient exists, and the products, differences and sums that
/// follow stay within what an amount can carry.
pub open spec fn allocation_defined(total: Dec, n: int) -> bool {
    match quotient(total, Dec::whole(n)) {
        None => false,
        Some(q) => q.representable() && allocation_fits(total, q.rounded(2), n),
    }
}

/// The share of participant `i` when `total` is split among `n`.
pub open spec fn share(total: Dec, n: int, i: int) -> Dec {
    share_from(total, base_share(total, n).unwrap(), n, i)
}

/// Result of splitting a shared total.
#[derive(Clone, Debug)]
pub struct AllocationResult {
    pub per_diver: MoneyResponse,
    pub amounts: Vec<MoneyResponse>,
}

/// The three numbers an allocation is built from.
struct AllocationPlan {
    base: Amount,
    adjusted: Amount,
    adjusted_count: usize,
}

/// The whole hundredths in the magnitude of `d`.
fn count_hundredths(d: &Amount) -> (k: i128)
    ensures
        k == whole_hundredths(d@),
        k >= 0,
{
    let m = d.mantissa();
    let s = d.scale();
    let a: i128 = if m < 0 {
        -m
    } else {
        m
    };
    let p = crate::pricing::amount::power_of_ten(s);
    proof {
        let up = pow10((28 - s) as nat);
        lemma_pow10_positive((28 - s) as nat);
        lemma_pow10_positive(s as nat);
        assert(magnitude(d@.units()) == a * up) by (nonlinear_arith)
            requires
                d@.units() == m * up,
                a == magnitude(m as int),
                up >= 1,
        ;
        assert(pow10(2) == 100) by {
            reveal_with_fuel(pow10, 3);
        }
        if s <= 26 {
            let c = pow10((26 - s) as nat);
            lemma_pow10_positive((26 - s) as nat);
            lemma_pow10_sum(2, (26 - s) as nat);
            lemma_pow10_sum(s as nat, (26 - s) as nat);
            lemma_div_multiples_vanish_quotient(c, a * 100, p as int);
            assert(c * (a * 100) == a * (100 * c)) by (nonlinear_arith);
            assert(c * (p as int) == (p as int) * c) by (nonlinear_arith);
        } else {
            let c = pow10((s - 26) as nat);
            lemma_pow10_positive((s - 26) as nat);
            lemma_pow10_sum((28 - s) as nat, (s - 26) as nat);
            lemma_pow10_sum(26, (s - 26) as nat);
            lemma_pow10_positive(26);
            assert(a * up >= 0) by (nonlinear_arith)
                requires
                    a >= 0,
                    up >= 1,
            ;
            lemma_div_multiples_vanish_quotient(c, a * up, pow10(26));
            assert(c * (a * up) == a * (up * c)) by (nonlinear_arith);
            assert(c * pow10(26) == pow10(26) * c) by (nonlinear_arith);
        }
    }
    (a * 100) / p
}

/// Works out the base share, the adjusted share and how many shares are
/// adjusted, from the quotient of the total by the number of participants;
/// `None` where a step is not an amount.
fn allocation_plan(shared_total: Amount, quotient: Amount, diver_count: i32) -> (r: Option<
    AllocationPlan,
>)
    requires
        diver_count > 0,
    ensures
        r.is_some() <==> allocation_fits(shared_total@, quotient@.rounded(2), diver_count as int),
        r matches Some(plan) ==> {
            let base = quotient@.rounded(2);
            &&& plan.base@ == base
            &&& plan.adjusted_count == adjusted_count(shared_total@, base, diver_count as int)
            &&& plan.adjusted_count > 0 ==> plan.adjusted@ == adjusted_share(
                shared_total@,
                base,
                diver_count as int,
            )
        },
{
    let n = Amount::from_i32(diver_count);
    let base = round_money(quotient, 2);
    let allocated = match base.checked_mul(&n) {
        Some(a) => a,
        None => {
            return None;
        },
    };
    let remainder = match shared_total.checked_sub(&allocated) {
        Some(r) => r,
        None => {
            return None;
        },
    };
    let k = count_hundredths(&remainder);
    let capped: usize = if k > diver_count as i128 {
        diver_count as usize
    } else {
        k as usize
    };
    if capped == 0 {
        return Some(AllocationPlan { base, adjusted: base, adjusted_count: 0 });
    }
    let step = if remainder.is_negative() {
        Amount::new(-1, 2)
    } else {
        Amount::new(1, 2)
    };
    match base.checked_add(&step) {
        Some(adjusted) => Some(AllocationPlan { base, adjusted, adjusted_count: capped }),
        None => None,
    }
}

/// Whether `result` is the split of `total` among `n > 0` participants from
/// the base share `base`, in the currency `currency`.
pub open spec fn is_allocation(
    result: AllocationResult,
    total: Dec,
    base: Dec,
    n: int,
    currency: Seq<char>,
) -> bool {
    &&& result.per_diver@ == (Money { amount: base, currency })
    &&& result.amounts@.len() == n
    &&& forall|i: int|
        0 <= i < n ==> (#[trigger] result.amounts@[i])@ == (Money {
            amount: share_from(total, base, n, i),
            currency,
        })
}

/// Splits `shared_total` among `diver_count` participants, given the quotient
/// of the total by the count.
///
/// Each share starts as the quotient rounded half to even at two places.
/// What the total has above or below that many base shares is handed out one
/// hundredth at a time to the first shares, to as many of them as the
/// remainder holds whole hundredths and at most to all. `None` where a step
/// is not an amount.
pub fn allocate_from_quotient(
    shared_total: Amount,
    quotient: Amount,
    diver_count: i32,
    currency: &str,
) -> (r: Option<AllocationResult>)
    requires
        diver_count > 0,
    ensures
        r.is_some() <==> allocation_fits(shared_total@, quotient@.rounded(2), diver_count as int),
        r matches Some(result) ==> is_allocation(
            result,
            shared_total@,
            quotient@.rounded(2),
            diver_count as int,
            currency@,
        ),
{
    let plan = match allocation_plan(shared_total, quotient, diver_count) {
        Some(plan) => plan,
        None => {
            return None;
        },
    };
    let ghost base = quotient@.rounded(2);
    let count = diver_count as usize;
    let mut amounts: Vec<MoneyResponse> = Vec::new();
    let mut i: usize = 0;
    while i < count
        invariant
            i <= count == diver_count,
            diver_count > 0,
            amounts@.len() == i,
            plan.base@ == base,
            plan.adjusted_count == adjusted_count(shared_total@, base, diver_count as int),
            plan.adjusted_count > 0 ==> plan.adjusted@ == adjusted_share(
                shared_total@,
                base,
                diver_count as int,
            ),
            forall|j: int|
                0 <= j < i ==> (#[trigger] amounts@[j])@ == (Money {
                    amount: share_from(shared_total@, base, diver_count as int, j),
                    currency: currency@,
                }),
        decreases count - i,
    {
        let amount = if i < plan.adjusted_count {
            plan.adjusted
        } else {
            plan.base
        };
        amounts.push(MoneyResponse::new(amount, currency));
        i = i + 1;
    }
    Some(AllocationResult { per_diver: MoneyResponse::new(plan.base, currency), amounts })
}

/// Splits `shared_total` evenly among `diver_count` participants.
///
/// Each share starts as the total divided by the count, rounded half to even
/// at two places. Whatever that rounding leaves over or overshoots is handed
/// out one hundredth at a time to the first shares. A count of zero or less
/// gives a zero share and no amounts.
pub fn allocate_shared_costs(shared_total: Amount, diver_count: i32, currency: &str) -> (r:
    AllocationResult)
    requires
        diver_count > 0 ==> allocation_defined(shared_total@, diver_count as int),
    ensures
        diver_count > 0 ==> even_division_is_exact(shared_total@, Dec::whole(diver_count as int)),
        r.per_diver.currency@ == currency@,
        diver_count <= 0 ==> r.per_diver.amount@ == Dec::whole(0) && r.amounts@.len() == 0,
        diver_count > 0 ==> {
            &&& Some(r.per_diver.amount@) == base_share(shared_total@, diver_count as int)
            &&& r.amounts@.len() == diver_count
            &&& forall|i: int|
                0 <= i < diver_count ==> (#[trigger] r.amounts@[i]).amount@ == share(
                    shared_total@,
                    diver_count as int,
                    i,
                ) && r.amounts@[i].currency@ == currency@
        },
{
    if diver_count <= 0 {
        return AllocationResult {
            per_diver: MoneyResponse::new(Amount::zero(), currency),
            amounts: Vec::new(),
        };
    }
    let split = match shared_total.checked_div(&Amount::from_i32(diver_count)) {
        Some(quotient) => allocate_from_quotient(shared_total, quotient, diver_count, currency),
        None => None,
    };
    match split {
        Some(result) => result,
        None => vstd::pervasive::unreached(),
    }
}

/// Splits like [`allocate_shared_costs`] wherever every step of the split is an
/// amount, and gives `None` where one is not.
pub fn checked_allocate_shared_costs(shared_total: Amount, diver_count: i32, currency: &str) -> (r:
    Option<AllocationResult>)
    ensures
        diver_count > 0 ==> even_division_is_exact(shared_total@, Dec::whole(diver_count as int)),
        r.is_some() <==> (diver_count > 0 ==> allocation_defined(
            shared_total@,
            diver_count as int,
        )),
        r matches Some(a) ==> {
            &&& a.per_diver.currency@ == currency@
            &&& diver_count <= 0 ==> a.per_diver.amount@ == Dec::whole(0) && a.amounts@.len() == 0
            &&& diver_count > 0 ==> {
                &&& Some(a.per_diver.amount@) == base_share(shared_total@, diver_count as int)
                &&& a.amounts@.len() == diver_count
                &&& forall|i: int|
                    0 <= i < diver_count ==> (#[trigger] a.amounts@[i]).amount@ == share(
                        shared_total@,
                        diver_count as int,
                        i,
                    ) && a.amounts@[i].currency@ == currency@
            }
        },
{
    let defined = diver_count <= 0 || match shared_total.checked_div(
        &Amount::from_i32(diver_count),
    ) {
        Some(quotient) => allocation_plan(shared_total, quotient, diver_count).is_some(),
        None => false,
    };
    if defined {
        Some(allocate_shared_costs(shared_total, diver_count, currency))
    } else {
        None
    }
}

/// Rounding lands on a nearest neighbour: the rounded value is never further
/// from the value it was made from than half a step of the target scale.
pub proof fn lemma_round_is_nearest(x: Dec, places: nat)
    requires
        x.scale > places,
    ensures
        x.rounded(places).scale == places,
        2 * magnitude(
            x.rounded(places).mantissa * pow10((x.scale - places) as nat) - x.mantissa,
        ) <= pow10((x.scale - places) as nat),
{
    let d = pow10((x.scale - places) as nat);
    lemma_pow10_positive((x.scale - places) as nat);
    let a = magnitude(x.mantissa);
    let q = a / d;
    let r = a % d;
    assert(a == q * d + r && 0 <= r < d) by (nonlinear_arith)
        requires
            d > 0,
            q == a / d,
            r == a % d,
    ;
    assert((q + 1) * d == q * d + d) by (nonlinear_arith);
    assert((-(q + 1)) * d == -(q * d + d)) by (nonlinear_arith);
    assert((-q) * d == -(q * d)) by (nonlinear_arith);
}

/// Banker's rounding: a value exactly halfway between two neighbours at the
/// target scale rounds to the neighbour whose last digit is even, and that
/// neighbour is half a step away.
pub proof fn lemma_round_midpoint_is_even(x: Dec, places: nat)
    requires
        x.scale > places,
        2 * (magnitude(x.mantissa) % pow10((x.scale - places) as nat)) == pow10(
            (x.scale - places) as nat,
        ),
    ensures
        x.rounded(places).scale == places,
        x.rounded(places).mantissa % 2 == 0,
        2 * magnitude(
            x.rounded(places).mantissa * pow10((x.scale - places) as nat) - x.mantissa,
        ) == pow10((x.scale - places) as nat),
{
    let d = pow10((x.scale - places) as nat);
    lemma_pow10_positive((x.scale - places) as nat);
    let a = magnitude(x.mantissa);
    let q = a / d;
    let r = a % d;
    assert(a == q * d + r && 0 <= r < d) by (nonlinear_arith)
        requires
            d > 0,
            q == a / d,
            r == a % d,
    ;
    assert((q + 1) * d == q * d + d) by (nonlinear_arith);
    assert((-(q + 1)) * d == -(q * d + d)) by (nonlinear_arith);
    assert((-q) * d == -(q * d)) by (nonlinear_arith);
    if q % 2 == 1 {
        assert((q + 1) % 2 == 0);
        assert((-(q + 1)) % 2 == 0);
    } else {
        assert(q % 2 == 0);
        assert((-q) % 2 == 0);
    }
}

/// The shares of a split from a given base share, in order.
pub open spec fn shares_from(total: Dec, base: Dec, n: int) -> Seq<Dec> {
    Seq::new(n as nat, |i: int| share_from(total, base, n, i))
}

/// The shares of a split, in order.
pub open spec fn shares(total: Dec, n: int) -> Seq<Dec> {
    shares_from(total, base_share(total, n).unwrap(), n)
}

/// The sum of a list of values, counted in units of `10^-28`.
pub open spec fn sum_units(amounts: Seq<Dec>) -> int
    decreases amounts.len(),
{
    if amounts.len() == 0 {
        0
    } else {
        sum_units(amounts.drop_last()) + amounts.last().units()
    }
}

/// The first `j` shares sum to `j` base shares plus one step for each adjusted
/// share among them.
proof fn lemma_prefix_sum(
    total: Dec,
    base: Dec,
    n: int,
    j: int,
    base_units: int,
    step_units: int,
    k: int,
)
    requires
        0 <= j <= n,
        0 <= k <= n,
        forall|i: int|
            0 <= i < n ==> (#[trigger] share_from(total, base, n, i)).units() == base_units
                + if i < k {
                step_units
            } else {
                0
            },
    ensures
        sum_units(shares_from(total, base, n).subrange(0, j)) == j * base_units + (if j < k {
            j
        } else {
            k
        }) * step_units,
    decreases j,
{
    let prefix = shares_from(total, base, n).subrange(0, j);
    if j == 0 {
        assert(prefix.len() == 0);
        assert(0 * base_units + 0 * step_units == 0) by (nonlinear_arith);
    } else {
        lemma_prefix_sum(total, base, n, j - 1, base_units, step_units, k);
        assert(prefix.drop_last() =~= shares_from(total, base, n).subrange(0, j - 1));
        assert(prefix.last() == share_from(total, base, n, j - 1));
        let before = if j - 1 < k {
            j - 1
        } else {
            k
        };
        let after = if j < k {
            j
        } else {
            k
        };
        assert(j * base_units == (j - 1) * base_units + base_units) by (nonlinear_arith);
        if j - 1 < k {
            assert(after == before + 1);
            assert(after * step_units == before * step_units + step_units) by (nonlinear_arith)
                requires
                    after == before + 1,
            ;
        } else {
            assert(after == before);
        }
    }
}

/// Whatever the base share, the shares made from it add up to the total
/// exactly, whenever the remainder is a whole number of hundredths and counts
/// no more hundredths than there are shares to take them.
pub proof fn lemma_shares_sum_to_total(total: Dec, base: Dec, n: int)
    requires
        n > 0,
        total.scale <= 28,
        base.scale <= 28,
        allocation_fits(total, base, n),
        ({
            let remainder = allocation_remainder(total, base, n);
            magnitude(remainder.units()) % pow10(26) == 0 && whole_hundredths(remainder) <= n
        }),
    ensures
        shares_from(total, base, n).len() == n,
        sum_units(shares_from(total, base, n)) == total.units(),
{
    let allocated = base.times(Dec::whole(n));
    let remainder = allocation_remainder(total, base, n);
    let h = whole_hundredths(remainder);
    let negative = remainder.mantissa < 0;
    let step = hundredth(negative);
    let unit = pow10(26);
    lemma_pow10_positive(26);
    lemma_pow10_positive((28 - remainder.scale) as nat);
    lemma_times_whole_units(base, n);
    lemma_minus_units(total, allocated);
    assert(remainder.units() == total.units() - base.units() * n);
    assert(magnitude(remainder.units()) == h * unit) by (nonlinear_arith)
        requires
            h == magnitude(remainder.units()) / unit,
            magnitude(remainder.units()) % unit == 0,
            unit > 0,
    ;
    assert(h >= 0) by (nonlinear_arith)
        requires
            magnitude(remainder.units()) == h * unit,
            magnitude(remainder.units()) >= 0,
            unit > 0,
    ;
    assert(step.units() == if negative {
        -unit
    } else {
        unit
    }) by {
        assert(1 * unit == unit && (-1) * unit == -unit) by (nonlinear_arith);
    }
    assert((remainder.units() < 0) == negative) by (nonlinear_arith)
        requires
            remainder.units() == remainder.mantissa * pow10((28 - remainder.scale) as nat),
            pow10((28 - remainder.scale) as nat) >= 1,
            negative == (remainder.mantissa < 0),
    ;
    let k = adjusted_count(total, base, n);
    assert(k == h);
    if k > 0 {
        lemma_plus_units(base, step);
    }
    assert forall|i: int| 0 <= i < n implies (#[trigger] share_from(total, base, n, i)).units()
        == base.units() + if i < k {
        step.units()
    } else {
        0
    } by {}
    lemma_prefix_sum(total, base, n, n, base.units(), step.units(), k);
    assert(shares_from(total, base, n).subrange(0, n) =~= shares_from(total, base, n));
    assert(k * step.units() == remainder.units()) by (nonlinear_arith)
        requires
            magnitude(remainder.units()) == k * unit,
            step.units() == if remainder.units() < 0 {
                -unit
            } else {
                unit
            },
    ;
    assert(n * base.units() == base.units() * n) by (nonlinear_arith);
}

/// The shares of a split add up to the total exactly, whenever the remainder
/// is a whole number of hundredths and counts no more hundredths than there
/// are shares to take them.
pub proof fn lemma_allocation_sums_to_total(total: Dec, n: int)
    requires
        n > 0,
        total.representable(),
        allocation_defined(total, n),
        ({
            let base = base_share(total, n).unwrap();
            let remainder = allocation_remainder(total, base, n);
            magnitude(remainder.units()) % pow10(26) == 0 && whole_hundredths(remainder) <= n
        }),
    ensures
        shares(total, n).len() == n,
        sum_units(shares(total, n)) == total.units(),
{
    lemma_shares_sum_to_total(total, base_share(total, n).unwrap(), n);
}

/// A value written with at most two decimal places is a whole number of
/// hundredths.
pub proof fn lemma_two_places_are_hundredths(d: Dec)
    requires
        d.scale <= 2,
    ensures
        magnitude(d.units()) % pow10(26) == 0,
{
    let up = pow10((2 - d.scale) as nat);
    lemma_pow10_positive((2 - d.scale) as nat);
    lemma_pow10_positive(26);
    lemma_pow10_sum((2 - d.scale) as nat, 26);
    assert(pow10((28 - d.scale) as nat) == up * pow10(26));
    let k = magnitude(d.mantissa) * up;
    assert(magnitude(d.units()) == k * pow10(26)) by (nonlinear_arith)
        requires
            d.units() == d.mantissa * (up * pow10(26)),
            k == magnitude(d.mantissa) * up,
            up >= 1,
            pow10(26) >= 1,
    ;
    assert(k >= 0) by (nonlinear_arith)
        requires
            k == magnitude(d.mantissa) * up,
            up >= 1,
    ;
    lemma_mod_multiples_basic(k, pow10(26));
}

/// The shares of a total written with at most two decimal places add up to
/// the total exactly, whenever the remainder counts no more hundredths than
/// there are shares to take them.
pub proof fn lemma_allocation_of_hundredths_sums_to_total(total: Dec, n: int)
    requires
        n > 0,
        total.representable(),
        total.scale <= 2,
        allocation_defined(total, n),
        whole_hundredths(
            allocation_remainder(total, base_share(total, n).unwrap(), n),
        ) <= n,
    ensures
        sum_units(shares(total, n)) == total.units(),
{
    let base = base_share(total, n).unwrap();
    lemma_times_whole_units(base, n);
    lemma_minus_units(total, base.times(Dec::whole(n)));
    lemma_two_places_are_hundredths(allocation_remainder(total, base, n));
    lemma_allocation_sums_to_total(total, n);
}

/// One cost line of an excursion.
#[derive(Clone, Debug)]
pub struct PricingLineInput {
    pub key: String,
    /// `"shared"` for a cost split among the participants, `"per_diver"` for
    /// one that each participant bears in full.
    pub allocation: String,
    pub shop_cost_amount: Amount,
    pub customer_charge_amount: Amount,
}

/// An add-on rental borne by each participant.
#[derive(Clone, Debug)]
pub struct EquipmentRentalInput {
    pub unit_cost_amount: Amount,
    pub unit_charge_amount: Amount,
    pub quantity: i32,
}

/// The breakdown that [`calculate_totals`] returns.
#[derive(Clone, Debug)]
pub struct PricingTotalsResult {
    pub shared_cost: MoneyResponse,
    pub shared_charge: MoneyResponse,
    pub per_diver_cost: MoneyResponse,
    pub per_diver_charge: MoneyResponse,
    pub shared_cost_per_diver: MoneyResponse,
    pub shared_charge_per_diver: MoneyResponse,
    pub total_cost_per_diver: MoneyResponse,
    pub total_charge_per_diver: MoneyResponse,
    pub margin_per_diver: MoneyResponse,
    pub diver_count: i32,
}

/// The nine amounts of a breakdown.
pub struct Totals {
    pub shared_cost: Dec,
    pub shared_charge: Dec,
    pub per_diver_cost: Dec,
    pub per_diver_charge: Dec,
    pub shared_cost_per_diver: Dec,
    pub shared_charge_per_diver: Dec,
    pub total_cost_per_diver: Dec,
    pub total_charge_per_diver: Dec,
    pub margin_per_diver: Dec,
}

impl PricingTotalsResult {
    /// The nine amounts, without their currency.
    pub open spec fn amounts(self) -> Totals {
        Totals {
            shared_cost: self.shared_cost.amount@,
            shared_charge: self.shared_charge.amount@,
            per_diver_cost: self.per_diver_cost.amount@,
            per_diver_charge: self.per_diver_charge.amount@,
            shared_cost_per_diver: self.shared_cost_per_diver.amount@,
            shared_charge_per_diver: self.shared_charge_per_diver.amount@,
            total_cost_per_diver: self.total_cost_per_diver.amount@,
            total_charge_per_diver: self.total_charge_per_diver.amount@,
            margin_per_diver: self.margin_per_diver.amount@,
        }
    }

    /// Whether each of the nine amounts is in the currency `code`.
    pub open spec fn all_in(self, code: Seq<char>) -> bool {
        &&& self.shared_cost.currency@ == code
        &&& self.shared_charge.currency@ == code
        &&& self.per_diver_cost.currency@ == code
        &&& self.per_diver_charge.currency@ == code
        &&& self.shared_cost_per_diver.currency@ == code
        &&& self.shared_charge_per_diver.currency@ == code
        &&& self.total_cost_per_diver.currency@ == code
        &&& self.total_charge_per_diver.currency@ == code
        &&& self.margin_per_diver.currency@ == code
    }
}

/// The cost of a line, or its charge.
pub open spec fn line_amount(line: PricingLineInput, charge: bool) -> Dec {
    if charge {
        line.customer_charge_amount@
    } else {
        line.shop_cost_amount@
    }
}

/// The costs (or charges) of the lines tagged `tag`, added up from zero in
/// the order of the list. Lines with another tag are passed over.
pub open spec fn lines_sum(lines: Seq<PricingLineInput>, tag: Seq<char>, charge: bool) -> Dec
    decreases lines.len(),
{
    if lines.len() == 0 {
        Dec::whole(0)
    } else {
        let before = lines_sum(lines.drop_last(), tag, charge);
        if lines.last().allocation@ == tag {
            before.plus(line_amount(lines.last(), charge))
        } else {
            before
        }
    }
}

/// Whether each sum that [`lines_sum`] forms on its way is an amount.
pub open spec fn lines_summable(lines: Seq<PricingLineInput>, tag: Seq<char>, charge: bool) -> bool
    decreases lines.len(),
{
    lines.len() == 0 || (lines_summable(lines.drop_last(), tag, charge) && (lines.last().allocation@
        == tag ==> lines_sum(lines.drop_last(), tag, charge).can_add(
        line_amount(lines.last(), charge),
    )))
}

/// The unit cost of a rental, or its unit charge.
pub open spec fn rental_unit(rental: EquipmentRentalInput, charge: bool) -> Dec {
    if charge {
        rental.unit_charge_amount@
    } else {
        rental.unit_cost_amount@
    }
}

/// `start` plus unit amount times quantity for each rental, in the order of the list.
pub open spec fn rentals_sum(start: Dec, rentals: Seq<EquipmentRentalInput>, charge: bool) -> Dec
    decreases rentals.len(),
{
    if rentals.len() == 0 {
        start
    } else {
        rentals_sum(start, rentals.drop_last(), charge).plus(
            rental_unit(rentals.last(), charge).times(Dec::whole(rentals.last().quantity as int)),
        )
    }
}

/// Whether each product and sum that [`rentals_sum`] forms on its way is an amount.
pub open spec fn rentals_summable(
    start: Dec,
    rentals: Seq<EquipmentRentalInput>,
    charge: bool,
) -> bool
    decreases rentals.len(),
{
    rentals.len() == 0 || {
        let unit = rental_unit(rentals.last(), charge);
        let quantity = Dec::whole(rentals.last().quantity as int);
        &&& rentals_summable(start, rentals.drop_last(), charge)
        &&& unit.can_mul(quantity)
        &&& rentals_sum(start, rentals.drop_last(), charge).can_add(unit.times(quantity))
    }
}

/// The per-participant share of a shared sum: the sum divided by the number of
/// participants and rounded to two places, or zero where there are none.
/// `None` where the quotient does not exist.
pub open spec fn shared_share(sum: Dec, n: int) -> Option<Dec> {
    if n > 0 {
        match quotient(sum, Dec::whole(n)) {
            Some(q) => Some(q.rounded(2)),
            None => None,
        }
    } else {
        Some(Dec::whole(0))
    }
}

/// The per-participant sum of costs (or charges): tagged lines, then add-ons.
pub open spec fn per_diver_sum(
    lines: Seq<PricingLineInput>,
    rentals: Seq<EquipmentRentalInput>,
    charge: bool,
) -> Dec {
    rentals_sum(lines_sum(lines, "per_diver"@, charge), rentals, charge)
}

/// Whether each of the four sums of lines and add-ons can be formed.
pub open spec fn sums_defined(
    lines: Seq<PricingLineInput>,
    rentals: Seq<EquipmentRentalInput>,
) -> bool {
    &&& lines_summable(lines, "shared"@, false)
    &&& lines_summable(lines, "shared"@, true)
    &&& lines_summable(lines, "per_diver"@, false)
    &&& lines_summable(lines, "per_diver"@, true)
    &&& rentals_summable(lines_sum(lines, "per_diver"@, false), rentals, false)
    &&& rentals_summable(lines_sum(lines, "per_diver"@, true), rentals, true)
}

/// Whether every step of the aggregation is an amount, given the two
/// per-participant shares of the shared sums.
pub open spec fn totals_fit(
    lines: Seq<PricingLineInput>,
    rentals: Seq<EquipmentRentalInput>,
    cost_share: Dec,
    charge_share: Dec,
) -> bool {
    &&& sums_defined(lines, rentals)
    &&& cost_share.can_add(per_diver_sum(lines, rentals, false))
    &&& charge_share.can_add(per_diver_sum(lines, rentals, true))
    &&& charge_share.plus(per_diver_sum(lines, rentals, true)).can_sub(
        cost_share.plus(per_diver_sum(lines, rentals, false)),
    )
}

/// The breakdown of a set of lines and add-ons, given the two per-participant
/// shares of the shared sums: the totals are share plus per-participant sum,
/// and the margin is total charge less total cost.
pub open spec fn totals_from(
    lines: Seq<PricingLineInput>,
    rentals: Seq<EquipmentRentalInput>,
    cost_share: Dec,
    charge_share: Dec,
) -> Totals {
    let per_diver_cost = per_diver_sum(lines, rentals, false);
    let per_diver_charge = per_diver_sum(lines, rentals, true);
    let total_cost_per_diver = cost_share.plus(per_diver_cost);
    let total_charge_per_diver = charge_share.plus(per_diver_charge);
    Totals {
        shared_cost: lines_sum(lines, "shared"@, false),
        shared_charge: lines_sum(lines, "shared"@, true),
        per_diver_cost,
        per_diver_charge,
        shared_cost_per_diver: cost_share,
        shared_charge_per_diver: charge_share,
        total_cost_per_diver,
        total_charge_per_diver,
        margin_per_diver: total_charge_per_diver.minus(total_cost_per_diver),
    }
}

/// Where the shared sums can be formed, each division of one by the number
/// of participants that comes out even gives the even quotient.
pub open spec fn shared_divisions_are_exact(lines: Seq<PricingLineInput>, n: int) -> bool {
    lines_summable(lines, "shared"@, false) && lines_summable(lines, "shared"@, true) ==> {
        &&& even_division_is_exact(lines_sum(lines, "shared"@, false), Dec::whole(n))
        &&& even_division_is_exact(lines_sum(lines, "shared"@, true), Dec::whole(n))
    }
}

/// Whether every step of the aggregation is an amount.
pub open spec fn totals_defined(
    lines: Seq<PricingLineInput>,
    rentals: Seq<EquipmentRentalInput>,
    n: int,
) -> bool {
    &&& shared_share(lines_sum(lines, "shared"@, false), n) matches Some(cost_share)
    &&& shared_share(lines_sum(lines, "shared"@, true), n) matches Some(charge_share)
    &&& totals_fit(lines, rentals, cost_share, charge_share)
}

/// The breakdown of a set of lines and add-ons for `n` participants.
pub open spec fn totals(
    lines: Seq<PricingLineInput>,
    rentals: Seq<EquipmentRentalInput>,
    n: int,
) -> Totals {
    totals_from(
        lines,
        rentals,
        shared_share(lines_sum(lines, "shared"@, false), n).unwrap(),
        shared_share(lines_sum(lines, "shared"@, true), n).unwrap(),
    )
}

/// The add-ons of a request: the given list, or none.
pub open spec fn rentals_of(equipment_rentals: Option<&[EquipmentRentalInput]>) -> Seq<
    EquipmentRentalInput,
> {
    match equipment_rentals {
        Some(rentals) => rentals@,
        None => Seq::empty(),
    }
}

/// Adds up the costs (or charges) of the lines tagged `tag`.
fn sum_lines(lines: &[PricingLineInput], tag: &str, charge: bool) -> (r: Option<Amount>)
    ensures
        r.is_some() <==> lines_summable(lines@, tag@, charge),
        r matches Some(sum) ==> sum@ == lines_sum(lines@, tag@, charge),
{
    let mut sum = Amount::zero();
    let mut i: usize = 0;
    while i < lines.len()
        invariant
            i <= lines@.len(),
            lines_summable(lines@.subrange(0, i as int), tag@, charge),
            sum@ == lines_sum(lines@.subrange(0, i as int), tag@, charge),
        decreases lines@.len() - i,
    {
        let line = &lines[i];
        proof {
            let next = lines@.subrange(0, i + 1);
            assert(next.drop_last() =~= lines@.subrange(0, i as int));
            assert(next.last() == lines@[i as int]);
        }
        if same_text(line.allocation.as_str(), tag) {
            let amount = if charge {
                line.customer_charge_amount
            } else {
                line.shop_cost_amount
            };
            match sum.checked_add(&amount) {
                Some(next) => {
                    sum = next;
                },
                None => {
                    proof {
                        if lines_summable(lines@, tag@, charge) {
                            lemma_lines_summable_prefix(lines@, tag@, charge, i + 1);
                        }
                    }
                    return None;
                },
            }
        }
        i = i + 1;
    }
    proof {
        assert(lines@.subrange(0, i as int) =~= lines@);
    }
    Some(sum)
}

/// A summable list has summable prefixes.
proof fn lemma_lines_summable_prefix(
    lines: Seq<PricingLineInput>,
    tag: Seq<char>,
    charge: bool,
    j: int,
)
    requires
        0 <= j <= lines.len(),
        lines_summable(lines, tag, charge),
    ensures
        lines_summable(lines.subrange(0, j), tag, charge),
    decreases lines.len(),
{
    if j == lines.len() {
        assert(lines.subrange(0, j) =~= lines);
    } else {
        lemma_lines_summable_prefix(lines.drop_last(), tag, charge, j);
        assert(lines.drop_last().subrange(0, j) =~= lines.subrange(0, j));
    }
}

/// A summable list of add-ons has summable prefixes.
proof fn lemma_rentals_summable_prefix(
    start: Dec,
    rentals: Seq<EquipmentRentalInput>,
    charge: bool,
    j: int,
)
    requires
        0 <= j <= rentals.len(),
        rentals_summable(start, rentals, charge),
    ensures
        rentals_summable(start, rentals.subrange(0, j), charge),
    decreases rentals.len(),
{
    if j == rentals.len() {
        assert(rentals.subrange(0, j) =~= rentals);
    } else {
        lemma_rentals_summable_prefix(start, rentals.drop_last(), charge, j);
        assert(rentals.drop_last().subrange(0, j) =~= rentals.subrange(0, j));
    }
}

/// Adds unit amount times quantity of each add-on to `start`.
fn add_rentals(start: Amount, rentals: &[EquipmentRentalInput], charge: bool) -> (r: Option<Amount>)
    ensures
        r.is_some() <==> rentals_summable(start@, rentals@, charge),
        r matches Some(sum) ==> sum@ == rentals_sum(start@, rentals@, charge),
{
    let mut sum = start;
    let mut i: usize = 0;
    while i < rentals.len()
        invariant
            i <= rentals@.len(),
            rentals_summable(start@, rentals@.subrange(0, i as int), charge),
            sum@ == rentals_sum(start@, rentals@.subrange(0, i as int), charge),
        decreases rentals@.len() - i,
    {
        let rental = &rentals[i];
        proof {
            let next = rentals@.subrange(0, i + 1);
            assert(next.drop_last() =~= rentals@.subrange(0, i as int));
            assert(next.last() == rentals@[i as int]);
        }
        let unit = if charge {
            rental.unit_charge_amount
        } else {
            rental.unit_cost_amount
        };
        let extended = match unit.checked_mul(&Amount::from_i32(rental.quantity)) {
            Some(product) => sum.checked_add(&product),
            None => None,
        };
        match extended {
            Some(next) => {
                sum = next;
            },
            None => {
                proof {
                    if rentals_summable(start@, rentals@, charge) {
                        lemma_rentals_summable_prefix(start@, rentals@, charge, i + 1);
                    }
                }
                return None;
            },
        }
        i = i + 1;
    }
    proof {
        assert(rentals@.subrange(0, i as int) =~= rentals@);
    }
    Some(sum)
}

/// The nine amounts of a breakdown, in the order of its fields.
struct TotalsPlan {
    shared_cost: Amount,
    shared_charge: Amount,
    per_diver_cost: Amount,
    per_diver_charge: Amount,
    shared_cost_per_diver: Amount,
    shared_charge_per_diver: Amount,
    total_cost_per_diver: Amount,
    total_charge_per_diver: Amount,
    margin_per_diver: Amount,
}

impl TotalsPlan {
    spec fn amounts(self) -> Totals {
        Totals {
            shared_cost: self.shared_cost@,
            shared_charge: self.shared_charge@,
            per_diver_cost: self.per_diver_cost@,
            per_diver_charge: self.per_diver_charge@,
            shared_cost_per_diver: self.shared_cost_per_diver@,
            shared_charge_per_diver: self.shared_charge_per_diver@,
            total_cost_per_diver: self.total_cost_per_diver@,
            total_charge_per_diver: self.total_charge_per_diver@,
            margin_per_diver: self.margin_per_diver@,
        }
    }
}

/// Works out the nine amounts from the two per-participant shares of the
/// shared sums; `None` where a step is not an amount.
fn plan_from_shares(
    lines: &[PricingLineInput],
    equipment_rentals: Option<&[EquipmentRentalInput]>,
    cost_share: Amount,
    charge_share: Amount,
) -> (r: Option<TotalsPlan>)
    ensures
        r.is_some() <==> totals_fit(
            lines@,
            rentals_of(equipment_rentals),
            cost_share@,
            charge_share@,
        ),
        r matches Some(plan) ==> plan.amounts() == totals_from(
            lines@,
            rentals_of(equipment_rentals),
            cost_share@,
            charge_share@,
        ),
{
    let shared_cost = sum_lines(lines, "shared", false)?;
    let shared_charge = sum_lines(lines, "shared", true)?;
    let lines_cost = sum_lines(lines, "per_diver", false)?;
    let lines_charge = sum_lines(lines, "per_diver", true)?;
    let (per_diver_cost, per_diver_charge) = match equipment_rentals {
        Some(rentals) => (
            add_rentals(lines_cost, rentals, false)?,
            add_rentals(lines_charge, rentals, true)?,
        ),
        None => (lines_cost, lines_charge),
    };
    let total_cost_per_diver = cost_share.checked_add(&per_diver_cost)?;
    let total_charge_per_diver = charge_share.checked_add(&per_diver_charge)?;
    let margin_per_diver = total_charge_per_diver.checked_sub(&total_cost_per_diver)?;
    Some(
        TotalsPlan {
            shared_cost,
            shared_charge,
            per_diver_cost,
            per_diver_charge,
            shared_cost_per_diver: cost_share,
            shared_charge_per_diver: charge_share,
            total_cost_per_diver,
            total_charge_per_diver,
            margin_per_diver,
        },
    )
}

/// Puts the nine amounts into the currency of the request.
fn totals_in(plan: TotalsPlan, diver_count: i32, currency: &str) -> (r: PricingTotalsResult)
    ensures
        r.amounts() == plan.amounts(),
        r.all_in(currency@),
        r.diver_count == diver_count,
{
    PricingTotalsResult {
        shared_cost: MoneyResponse::new(plan.shared_cost, currency),
        shared_charge: MoneyResponse::new(plan.shared_charge, currency),
        per_diver_cost: MoneyResponse::new(plan.per_diver_cost, currency),
        per_diver_charge: MoneyResponse::new(plan.per_diver_charge, currency),
        shared_cost_per_diver: MoneyResponse::new(plan.shared_cost_per_diver, currency),
        shared_charge_per_diver: MoneyResponse::new(plan.shared_charge_per_diver, currency),
        total_cost_per_diver: MoneyResponse::new(plan.total_cost_per_diver, currency),
        total_charge_per_diver: MoneyResponse::new(plan.total_charge_per_diver, currency),
        margin_per_diver: MoneyResponse::new(plan.margin_per_diver, currency),
        diver_count,
    }
}

/// Aggregates cost lines and add-on rentals for `diver_count > 0`
/// participants, given the quotients of the shared cost and of the shared
/// charge by the number of participants.
///
/// Costs and charges are summed apart, shared lines apart from
/// per-participant ones; add-ons count toward the per-participant sums. Each
/// share of a shared sum is its quotient rounded half to even at two places.
/// The totals are share plus per-participant sum, and the margin is total
/// charge less total cost. `None` where a step is not an amount.
pub fn totals_from_quotients(
    lines: &[PricingLineInput],
    diver_count: i32,
    currency: &str,
    equipment_rentals: Option<&[EquipmentRentalInput]>,
    cost_quotient: Amount,
    charge_quotient: Amount,
) -> (r: Option<PricingTotalsResult>)
    requires
        diver_count > 0,
    ensures
        r.is_some() <==> totals_fit(
            lines@,
            rentals_of(equipment_rentals),
            cost_quotient@.rounded(2),
            charge_quotient@.rounded(2),
        ),
        r matches Some(t) ==> {
            &&& t.amounts() == totals_from(
                lines@,
                rentals_of(equipment_rentals),
                cost_quotient@.rounded(2),
                charge_quotient@.rounded(2),
            )
            &&& t.all_in(currency@)
            &&& t.diver_count == diver_count
        },
{
    match plan_from_shares(
        lines,
        equipment_rentals,
        round_money(cost_quotient, 2),
        round_money(charge_quotient, 2),
    ) {
        Some(plan) => Some(totals_in(plan, diver_count, currency)),
        None => None,
    }
}

/// The quotients of the shared cost and of the shared charge by the number
/// of participants; `None` where a shared sum or a quotient does not exist.
fn shared_quotients(lines: &[PricingLineInput], diver_count: i32) -> (r: Option<(Amount, Amount)>)
    requires
        diver_count > 0,
    ensures
        shared_divisions_are_exact(lines@, diver_count as int),
        match r {
            Some(q) => {
                &&& lines_summable(lines@, "shared"@, false)
                &&& lines_summable(lines@, "shared"@, true)
                &&& quotient(lines_sum(lines@, "shared"@, false), Dec::whole(diver_count as int))
                    == Some(q.0@)
                &&& quotient(lines_sum(lines@, "shared"@, true), Dec::whole(diver_count as int))
                    == Some(q.1@)
            },
            None => !lines_summable(lines@, "shared"@, false) || !lines_summable(
                lines@,
                "shared"@,
                true,
            ) || quotient(
                lines_sum(lines@, "shared"@, false),
                Dec::whole(diver_count as int),
            ).is_none() || quotient(
                lines_sum(lines@, "shared"@, true),
                Dec::whole(diver_count as int),
            ).is_none(),
        },
{
    let n = Amount::from_i32(diver_count);
    let shared_cost = sum_lines(lines, "shared", false)?;
    let shared_charge = sum_lines(lines, "shared", true)?;
    match (shared_cost.checked_div(&n), shared_charge.checked_div(&n)) {
        (Some(cost_quotient), Some(charge_quotient)) => Some((cost_quotient, charge_quotient)),
        _ => None,
    }
}

/// Aggregates cost lines and add-on rentals into a per-participant breakdown.
///
/// Costs and charges are summed apart, shared lines apart from
/// per-participant ones; add-ons count toward the per-participant sums. The
/// shared sums become per-participant shares by division and rounding at two
/// places, or zero where there is no participant. The totals are share plus
/// per-participant sum, and the margin is total charge less total cost.
pub fn calculate_totals(
    lines: &[PricingLineInput],
    diver_count: i32,
    currency: &str,
    equipment_rentals: Option<&[EquipmentRentalInput]>,
) -> (r: PricingTotalsResult)
    requires
        totals_defined(lines@, rentals_of(equipment_rentals), diver_count as int),
    ensures
        diver_count > 0 ==> shared_divisions_are_exact(lines@, diver_count as int),
        r.amounts() == totals(lines@, rentals_of(equipment_rentals), diver_count as int),
        r.all_in(currency@),
        r.diver_count == diver_count,
{
    let breakdown = if diver_count > 0 {
        match shared_quotients(lines, diver_count) {
            Some((cost_quotient, charge_quotient)) => totals_from_quotients(
                lines,
                diver_count,
                currency,
                equipment_rentals,
                cost_quotient,
                charge_quotient,
            ),
            None => None,
        }
    } else {
        match plan_from_shares(lines, equipment_rentals, Amount::zero(), Amount::zero()) {
            Some(plan) => Some(totals_in(plan, diver_count, currency)),
            None => None,
        }
    };
    match breakdown {
        Some(totals) => totals,
        None => vstd::pervasive::unreached(),
    }
}

/// Whether [`calculate_totals`] can form every amount on its way.
fn totals_are_defined(
    lines: &[PricingLineInput],
    diver_count: i32,
    equipment_rentals: Option<&[EquipmentRentalInput]>,
) -> (r: bool)
    ensures
        diver_count > 0 ==> shared_divisions_are_exact(lines@, diver_count as int),
        r == totals_defined(lines@, rentals_of(equipment_rentals), diver_count as int),
{
    let shares = if diver_count > 0 {
        match shared_quotients(lines, diver_count) {
            Some((cost_quotient, charge_quotient)) => Some(
                (round_money(cost_quotient, 2), round_money(charge_quotient, 2)),
            ),
            None => None,
        }
    } else {
        Some((Amount::zero(), Amount::zero()))
    };
    match shares {
        Some((cost_share, charge_share)) => plan_from_shares(
            lines,
            equipment_rentals,
            cost_share,
            charge_share,
        ).is_some(),
        None => false,
    }
}

/// Aggregates like [`calculate_totals`] wherever every step of the aggregation
/// is an amount, and gives `None` where one is not.
pub fn checked_calculate_totals(
    lines: &[PricingLineInput],
    diver_count: i32,
    currency: &str,
    equipment_rentals: Option<&[EquipmentRentalInput]>,
) -> (r: Option<PricingTotalsResult>)
    ensures
        diver_count > 0 ==> shared_divisions_are_exact(lines@, diver_count as int),
        r.is_some() <==> totals_defined(lines@, rentals_of(equipment_rentals), diver_count as int),
        r matches Some(t) ==> {
            &&& t.amounts() == totals(lines@, rentals_of(equipment_rentals), diver_count as int)
            &&& t.all_in(currency@)
            &&& t.diver_count == diver_count
        },
{
    if totals_are_defined(lines, diver_count, equipment_rentals) {
        Some(calculate_totals(lines, diver_count, currency, equipment_rentals))
    } else {
        None
    }
}

} // verus!
