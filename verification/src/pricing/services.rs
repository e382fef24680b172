//! The pricing operations: boat cost, gas fills and component prices.

use vstd::prelude::*;
use vstd::string::StringExecFns;
use std::sync::Arc;
use crate::pricing::amount::{even_division_is_exact, quotient, Amount, Dec};
use crate::pricing::calculators::round_money;
use crate::pricing::models::{Agreement, Price, TermValue, Timestamp};
use crate::cache::{agreement_key_text, AppCache, Namespace, Snapshot};
use crate::pricing::queries::{
    best_price, find_agreement, find_agreement_index, find_price, latest_agreement,
    AgreementQuery, Asked, PriceScope,
};
use crate::pricing::responses::{Money, MoneyResponse};
use crate::text::{join2, join3, lowercase_text, to_lowercase, uuid_text, uuid_to_text};

verus! {

/// Why a pricing operation gave no result, with texts as sequences of characters.
pub enum Failure {
    MissingVendorAgreement { scope_type: Seq<char>, scope_ref: Seq<char> },
    MissingPrice { catalog_item_id: Seq<char>, context: Seq<char> },
    ConfigurationError { message: Seq<char>, errors: Seq<Seq<char>> },
}

/// Why a pricing operation gave no result.
#[derive(Debug, Clone)]
pub enum PricingError {
    /// No active agreement covers what was asked about.
    MissingVendorAgreement { scope_type: String, scope_ref: String },
    /// No price rule applies at any level.
    MissingPrice { catalog_item_id: String, context: String },
    /// The terms of an agreement, or what the caller passed, cannot be priced.
    ConfigurationError { message: String, errors: Vec<String> },
}

impl View for PricingError {
    type V = Failure;

    open spec fn view(&self) -> Failure {
        match self {
            PricingError::MissingVendorAgreement { scope_type, scope_ref } => {
                Failure::MissingVendorAgreement { scope_type: scope_type@, scope_ref: scope_ref@ }
            },
            PricingError::MissingPrice { catalog_item_id, context } => Failure::MissingPrice {
                catalog_item_id: catalog_item_id@,
                context: context@,
            },
            PricingError::ConfigurationError { message, errors } => Failure::ConfigurationError {
                message: message@,
                errors: errors.deep_view(),
            },
        }
    }
}

impl Failure {
    /// A configuration error with one violation.
    pub open spec fn configuration(message: Seq<char>, violation: Seq<char>) -> Failure {
        Failure::ConfigurationError { message, errors: seq![violation] }
    }

    /// The sentence that describes the failure.
    pub open spec fn sentence(self) -> Seq<char> {
        match self {
            Failure::MissingVendorAgreement { scope_type, scope_ref } => {
                "No vendor agreement found for "@ + scope_type + ":"@ + scope_ref
            },
            Failure::MissingPrice { catalog_item_id, context } => {
                "No price found for catalog item "@ + catalog_item_id + " ("@ + context + ")"@
            },
            Failure::ConfigurationError { message, errors } => "Configuration error: "@ + message,
        }
    }
}

impl PricingError {
    /// A configuration error with one violation.
    pub fn configuration(message: String, violation: &str) -> (r: PricingError)
        ensures
            r@ == Failure::configuration(message@, violation@),
    {
        let mut errors: Vec<String> = Vec::new();
        errors.push(violation.to_owned());
        assert(errors.deep_view() =~= seq![violation@]);
        PricingError::ConfigurationError { message, errors }
    }

    /// The sentence that describes the error.
    pub fn to_string(&self) -> (r: String)
        ensures
            r@ == self@.sentence(),
    {
        match self {
            PricingError::MissingVendorAgreement { scope_type, scope_ref } => {
                String::from_str("No vendor agreement found for ").concat(
                    scope_type.as_str(),
                ).concat(":").concat(scope_ref.as_str())
            },
            PricingError::MissingPrice { catalog_item_id, context } => {
                String::from_str("No price found for catalog item ").concat(
                    catalog_item_id.as_str(),
                ).concat(" (").concat(context.as_str()).concat(")")
            },
            PricingError::ConfigurationError { message, errors } => {
                join2("Configuration error: ", message.as_str())
            },
        }
    }
}

/// `"Agreement "`, the identifier of the agreement, and `tail`.
pub open spec fn agreement_sentence(id: u128, tail: Seq<char>) -> Seq<char> {
    "Agreement "@ + uuid_text(id) + tail
}

fn agreement_message(id: u128, tail: &str) -> (r: String)
    ensures
        r@ == agreement_sentence(id, tail@),
{
    let spelled = uuid_to_text(id);
    join3("Agreement ", spelled.as_str(), tail)
}

/// The boat-charter tier of an agreement, as numbers and sequences of characters.
pub struct BoatTierModel {
    pub base_cost: Dec,
    pub included_divers: i32,
    pub overage_per_diver: Option<Dec>,
    pub currency: Seq<char>,
}

/// The boat-charter tier of an agreement's terms, field by field.
#[derive(Debug)]
pub struct BoatTier {
    /// What the boat costs with no more than the included divers on it.
    pub base_cost: Amount,
    /// How many divers the base cost covers; four where the terms do not say.
    pub included_divers: i32,
    /// What each further diver costs, where the terms say so.
    pub overage_per_diver: Option<Amount>,
    /// The currency of both amounts; `"MXN"` where the terms do not say.
    pub currency: String,
}

impl View for BoatTier {
    type V = BoatTierModel;

    open spec fn view(&self) -> BoatTierModel {
        BoatTierModel {
            base_cost: self.base_cost@,
            included_divers: self.included_divers,
            overage_per_diver: match self.overage_per_diver {
                Some(a) => Some(a@),
                None => None,
            },
            currency: self.currency@,
        }
    }
}

/// The amount under `key` of a tier, where the tier has a readable one.
pub open spec fn amount_field(tier: TermValue, key: Seq<char>) -> Option<Dec> {
    match tier.field(key) {
        Some(v) => v.amount(),
        None => None,
    }
}

/// The currency of a tier: its `currency` text, or `"MXN"`.
pub open spec fn currency_field(tier: TermValue) -> Seq<char> {
    match tier.field("currency"@) {
        Some(v) => match v.text() {
            Some(code) => code,
            None => "MXN"@,
        },
        None => "MXN"@,
    }
}

/// The number of included divers of a tier: its `included_divers` integer, or
/// four where the tier has none. `None` where the integer is too large or too
/// small to count divers with.
pub open spec fn included_divers_field(tier: TermValue) -> Option<i32> {
    match tier.field("included_divers"@) {
        Some(v) => match v.integer() {
            Some(n) => if i32::MIN <= n <= i32::MAX {
                Some(n as i32)
            } else {
                None
            },
            None => Some(4i32),
        },
        None => Some(4i32),
    }
}

/// What the terms of an agreement say about chartering a boat, or why they
/// cannot be used.
pub open spec fn boat_tier(agreement: Agreement) -> Result<BoatTierModel, Failure> {
    match agreement.terms.field("boat_charter"@) {
        None => Err(
            Failure::configuration(
                agreement_sentence(agreement.id, " missing 'boat_charter' in terms"@),
                "boat_charter not in agreement.terms"@,
            ),
        ),
        Some(tier) => match amount_field(tier, "base_cost"@) {
            None => Err(
                Failure::configuration(
                    agreement_sentence(agreement.id, " has no readable 'base_cost' in boat_charter"@),
                    "boat_charter.base_cost is missing or not a number"@,
                ),
            ),
            Some(base_cost) => match included_divers_field(tier) {
                None => Err(
                    Failure::configuration(
                        agreement_sentence(
                            agreement.id,
                            " has an 'included_divers' out of range in boat_charter"@,
                        ),
                        "boat_charter.included_divers is out of range"@,
                    ),
                ),
                Some(included_divers) => Ok(
                    BoatTierModel {
                        base_cost,
                        included_divers,
                        overage_per_diver: amount_field(tier, "overage_per_diver"@),
                        currency: currency_field(tier),
                    },
                ),
            },
        },
    }
}

/// Reads the amount under `key` of a tier in either encoding.
fn read_amount_field(tier: &TermValue, key: &str) -> (r: Option<Amount>)
    ensures
        match r {
            Some(a) => amount_field(*tier, key@) == Some(a@),
            None => amount_field(*tier, key@).is_none(),
        },
{
    match tier.get(key) {
        Some(v) => v.as_amount(),
        None => None,
    }
}

/// Reads the currency of a tier.
fn read_currency_field(tier: &TermValue) -> (r: String)
    ensures
        r@ == currency_field(*tier),
{
    match tier.get("currency") {
        Some(v) => match v.as_str() {
            Some(code) => code.to_owned(),
            None => "MXN".to_owned(),
        },
        None => "MXN".to_owned(),
    }
}

/// Reads the boat-charter tier of an agreement's terms.
pub fn read_boat_tier(agreement: &Agreement) -> (r: Result<BoatTier, PricingError>)
    ensures
        match r {
            Ok(tier) => boat_tier(*agreement) == Ok::<BoatTierModel, Failure>(tier@),
            Err(e) => boat_tier(*agreement) == Err::<BoatTierModel, Failure>(e@),
        },
{
    let tier = match agreement.terms.get("boat_charter") {
        Some(tier) => tier,
        None => {
            return Err(
                PricingError::configuration(
                    agreement_message(agreement.id, " missing 'boat_charter' in terms"),
                    "boat_charter not in agreement.terms",
                ),
            );
        },
    };
    let base_cost = match read_amount_field(tier, "base_cost") {
        Some(a) => a,
        None => {
            return Err(
                PricingError::configuration(
                    agreement_message(agreement.id, " has no readable 'base_cost' in boat_charter"),
                    "boat_charter.base_cost is missing or not a number",
                ),
            );
        },
    };
    let stated: Option<i64> = match tier.get("included_divers") {
        Some(v) => v.as_i64(),
        None => None,
    };
    let included_divers: i32 = match stated {
        Some(n) => {
            if n < i32::MIN as i64 || n > i32::MAX as i64 {
                return Err(
                    PricingError::configuration(
                        agreement_message(
                            agreement.id,
                            " has an 'included_divers' out of range in boat_charter",
                        ),
                        "boat_charter.included_divers is out of range",
                    ),
                );
            }
            n as i32
        },
        None => 4,
    };
    Ok(
        BoatTier {
            base_cost,
            included_divers,
            overage_per_diver: read_amount_field(tier, "overage_per_diver"),
            currency: read_currency_field(tier),
        },
    )
}

/// The result of pricing a boat, as numbers and sequences of characters.
pub struct BoatCost {
    pub total: Money,
    pub per_diver: Money,
    pub base_cost: Money,
    pub overage_count: i32,
    pub overage_per_diver: Money,
    pub included_divers: i32,
    pub diver_count: i32,
    pub agreement_id: Option<Seq<char>>,
}

/// Result of boat cost calculation.
#[derive(Debug, Clone)]
pub struct BoatCostResult {
    pub total: MoneyResponse,
    pub per_diver: MoneyResponse,
    pub base_cost: MoneyResponse,
    pub overage_count: i32,
    pub overage_per_diver: MoneyResponse,
    pub included_divers: i32,
    pub diver_count: i32,
    pub agreement_id: Option<String>,
}

impl View for BoatCostResult {
    type V = BoatCost;

    open spec fn view(&self) -> BoatCost {
        BoatCost {
            total: self.total@,
            per_diver: self.per_diver@,
            base_cost: self.base_cost@,
            overage_count: self.overage_count,
            overage_per_diver: self.overage_per_diver@,
            included_divers: self.included_divers,
            diver_count: self.diver_count,
            agreement_id: match self.agreement_id {
                Some(id) => Some(id@),
                None => None,
            },
        }
    }
}

/// The error for a diver count of zero or less.
pub open spec fn no_divers() -> Failure {
    Failure::configuration("Diver count must be positive"@, "diver_count <= 0"@)
}

/// The error for an amount that cannot be carried.
pub open spec fn out_of_range(id: u128) -> Failure {
    Failure::configuration(
        agreement_sentence(id, " gives amounts that are out of range"@),
        "amount not representable"@,
    )
}

/// The error for an overage that the terms do not price.
pub open spec fn no_overage_rate(id: u128) -> Failure {
    Failure::configuration(
        agreement_sentence(id, " has no readable 'overage_per_diver' in boat_charter"@),
        "boat_charter.overage_per_diver is missing or not a number"@,
    )
}

/// How many divers come on top of those the base cost covers.
pub open spec fn overage(diver_count: i32, included_divers: i32) -> int {
    if diver_count <= included_divers {
        0
    } else {
        diver_count - included_divers
    }
}

/// The total cost of the boat: the base cost, plus the rate times the divers
/// above the included number where there are any. `Err` names what is missing
/// or out of range.
pub open spec fn boat_total(tier: BoatTierModel, diver_count: i32, id: u128) -> Result<
    Dec,
    Failure,
> {
    let extra = overage(diver_count, tier.included_divers);
    if extra == 0 {
        Ok(tier.base_cost)
    } else if extra > i32::MAX {
        Err(out_of_range(id))
    } else {
        match tier.overage_per_diver {
            None => Err(no_overage_rate(id)),
            Some(rate) => {
                let counted = Dec::whole(extra);
                if counted.can_mul(rate) && tier.base_cost.can_add(counted.times(rate)) {
                    Ok(tier.base_cost.plus(counted.times(rate)))
                } else {
                    Err(out_of_range(id))
                }
            },
        }
    }
}

/// The cost of a boat for `diver_count > 0` divers under a tier, given the
/// quotient of the total by the number of divers: the total, the share of
/// each diver, which is the quotient rounded to two places, and what they
/// were made from. Without a quotient the amounts are out of range.
pub open spec fn boat_cost_with(
    tier: BoatTierModel,
    diver_count: i32,
    id: u128,
    share_quotient: Option<Dec>,
) -> Result<BoatCost, Failure> {
    match boat_total(tier, diver_count, id) {
        Err(e) => Err(e),
        Ok(total) => match share_quotient {
            None => Err(out_of_range(id)),
            Some(q) => Ok(
                BoatCost {
                    total: Money { amount: total, currency: tier.currency },
                    per_diver: Money { amount: q.rounded(2), currency: tier.currency },
                    base_cost: Money { amount: tier.base_cost, currency: tier.currency },
                    overage_count: overage(diver_count, tier.included_divers) as i32,
                    overage_per_diver: Money {
                        amount: match tier.overage_per_diver {
                            Some(rate) => rate,
                            None => Dec::whole(0),
                        },
                        currency: tier.currency,
                    },
                    included_divers: tier.included_divers,
                    diver_count,
                    agreement_id: Some(uuid_text(id)),
                },
            ),
        },
    }
}

/// The quotient of the total cost of the boat by the number of divers, where
/// there is a total and the quotient exists.
pub open spec fn boat_share_quotient(tier: BoatTierModel, diver_count: i32, id: u128) -> Option<
    Dec,
> {
    match boat_total(tier, diver_count, id) {
        Ok(total) => quotient(total, Dec::whole(diver_count as int)),
        Err(_) => None,
    }
}

/// Where the boat has a total, a division of it by the number of divers that
/// comes out even gives the even quotient.
pub open spec fn boat_division_is_exact(tier: BoatTierModel, diver_count: i32, id: u128) -> bool {
    boat_total(tier, diver_count, id) matches Ok(total) ==> even_division_is_exact(
        total,
        Dec::whole(diver_count as int),
    )
}

/// The cost of a boat for `diver_count > 0` divers under a tier: the total, the
/// share of each diver rounded to two places, and what they were made from.
pub open spec fn boat_cost(tier: BoatTierModel, diver_count: i32, id: u128) -> Result<
    BoatCost,
    Failure,
> {
    boat_cost_with(tier, diver_count, id, boat_share_quotient(tier, diver_count, id))
}

/// The cost of a boat for `diver_count` divers under an agreement. A count of
/// zero or less is refused before the terms are looked at.
pub open spec fn boat_cost_under(agreement: Agreement, diver_count: i32) -> Result<
    BoatCost,
    Failure,
> {
    if diver_count <= 0 {
        Err(no_divers())
    } else {
        match boat_tier(agreement) {
            Err(e) => Err(e),
            Ok(tier) => boat_cost(tier, diver_count, agreement.id),
        }
    }
}

fn out_of_range_error(id: u128) -> (r: PricingError)
    ensures
        r@ == out_of_range(id),
{
    PricingError::configuration(
        agreement_message(id, " gives amounts that are out of range"),
        "amount not representable",
    )
}

/// Works out the total cost of the boat.
fn total_boat_cost(tier: &BoatTier, diver_count: i32, id: u128) -> (r: Result<Amount, PricingError>)
    ensures
        match r {
            Ok(total) => boat_total(tier@, diver_count, id) == Ok::<Dec, Failure>(total@),
            Err(e) => boat_total(tier@, diver_count, id) == Err::<Dec, Failure>(e@),
        },
{
    if diver_count <= tier.included_divers {
        return Ok(tier.base_cost);
    }
    let extra: i64 = diver_count as i64 - tier.included_divers as i64;
    if extra > i32::MAX as i64 {
        return Err(out_of_range_error(id));
    }
    let rate = match tier.overage_per_diver {
        Some(rate) => rate,
        None => {
            return Err(
                PricingError::configuration(
                    agreement_message(id, " has no readable 'overage_per_diver' in boat_charter"),
                    "boat_charter.overage_per_diver is missing or not a number",
                ),
            );
        },
    };
    let counted = Amount::from_i64(extra);
    let sum = match counted.checked_mul(&rate) {
        Some(product) => tier.base_cost.checked_add(&product),
        None => None,
    };
    match sum {
        Some(total) => Ok(total),
        None => Err(out_of_range_error(id)),
    }
}

/// Prices a boat for `diver_count > 0` divers under a tier of the agreement
/// `id`, given the quotient of the total by the number of divers; `None`
/// stands for a quotient that does not exist.
///
/// The total is the base cost plus, for each diver above the included number,
/// the overage rate. Each diver's share is the quotient rounded half to even
/// at two places.
pub fn boat_cost_from_quotient(
    tier: &BoatTier,
    diver_count: i32,
    id: u128,
    share_quotient: Option<Amount>,
) -> (r: Result<BoatCostResult, PricingError>)
    requires
        diver_count > 0,
    ensures
        ({
            let given = match share_quotient {
                Some(q) => Some(q@),
                None => None,
            };
            match r {
                Ok(cost) => boat_cost_with(tier@, diver_count, id, given) == Ok::<
                    BoatCost,
                    Failure,
                >(cost@),
                Err(e) => boat_cost_with(tier@, diver_count, id, given) == Err::<
                    BoatCost,
                    Failure,
                >(e@),
            }
        }),
{
    let total = match total_boat_cost(tier, diver_count, id) {
        Ok(total) => total,
        Err(e) => {
            return Err(e);
        },
    };
    let per_diver = match share_quotient {
        Some(q) => round_money(q, 2),
        None => {
            return Err(out_of_range_error(id));
        },
    };
    let overage_count: i32 = if diver_count <= tier.included_divers {
        0
    } else {
        (diver_count as i64 - tier.included_divers as i64) as i32
    };
    let rate = match tier.overage_per_diver {
        Some(rate) => rate,
        None => Amount::zero(),
    };
    let currency = tier.currency.as_str();
    Ok(
        BoatCostResult {
            total: MoneyResponse::new(total, currency),
            per_diver: MoneyResponse::new(per_diver, currency),
            base_cost: MoneyResponse::new(tier.base_cost, currency),
            overage_count,
            overage_per_diver: MoneyResponse::new(rate, currency),
            included_divers: tier.included_divers,
            diver_count,
            agreement_id: Some(uuid_to_text(id)),
        },
    )
}

/// Prices a boat for `diver_count > 0` divers under a tier of the agreement `id`.
pub fn boat_cost_from_tier(tier: &BoatTier, diver_count: i32, id: u128) -> (r: Result<
    BoatCostResult,
    PricingError,
>)
    requires
        diver_count > 0,
    ensures
        boat_division_is_exact(tier@, diver_count, id),
        match r {
            Ok(cost) => boat_cost(tier@, diver_count, id) == Ok::<BoatCost, Failure>(cost@),
            Err(e) => boat_cost(tier@, diver_count, id) == Err::<BoatCost, Failure>(e@),
        },
{
    let share_quotient = match total_boat_cost(tier, diver_count, id) {
        Ok(total) => total.checked_div(&Amount::from_i32(diver_count)),
        Err(_) => None,
    };
    boat_cost_from_quotient(tier, diver_count, id, share_quotient)
}

/// Prices a boat for `diver_count` divers under an agreement.
///
/// The total is the base cost of the agreement's boat-charter tier plus, for
/// each diver above the included number, the tier's overage rate. Each diver's
/// share is the total divided by the count, rounded half to even at two places.
pub fn boat_cost_from_agreement(agreement: &Agreement, diver_count: i32) -> (r: Result<
    BoatCostResult,
    PricingError,
>)
    ensures
        diver_count > 0 ==> (boat_tier(*agreement) matches Ok(tier) ==> boat_division_is_exact(
            tier,
            diver_count,
            agreement.id,
        )),
        match r {
            Ok(cost) => boat_cost_under(*agreement, diver_count) == Ok::<BoatCost, Failure>(cost@),
            Err(e) => boat_cost_under(*agreement, diver_count) == Err::<BoatCost, Failure>(e@),
        },
{
    if diver_count <= 0 {
        return Err(
            PricingError::configuration(
                "Diver count must be positive".to_owned(),
                "diver_count <= 0",
            ),
        );
    }
    match read_boat_tier(agreement) {
        Ok(tier) => boat_cost_from_tier(&tier, diver_count, agreement.id),
        Err(e) => Err(e),
    }
}

/// With at most the included number of divers on the boat nobody counts as
/// overage and the total is the base cost, whatever the overage rate is and
/// whether or not the terms give one. Given the quotient of the base cost by
/// the number of divers the boat is priced; it fails to be priced only where
/// that quotient does not exist.
pub proof fn lemma_no_overage_within_included(
    tier: BoatTierModel,
    diver_count: i32,
    id: u128,
    share_quotient: Dec,
)
    requires
        0 < diver_count <= tier.included_divers,
    ensures
        boat_total(tier, diver_count, id) == Ok::<Dec, Failure>(tier.base_cost),
        boat_cost_with(tier, diver_count, id, Some(share_quotient)) matches Ok(cost)
            && cost.overage_count == 0 && cost.total.amount == tier.base_cost
            && cost.base_cost.amount == tier.base_cost,
        boat_cost(tier, diver_count, id) is Ok <==> quotient(
            tier.base_cost,
            Dec::whole(diver_count as int),
        ) is Some,
        boat_cost(tier, diver_count, id) matches Ok(cost) ==> cost.overage_count == 0
            && cost.total.amount == tier.base_cost,
{
}

/// The result of pricing gas fills, as numbers and sequences of characters.
pub struct GasFill {
    pub cost_per_fill: Money,
    pub charge_per_fill: Money,
    pub total_cost: Money,
    pub total_charge: Money,
    pub fills_count: i32,
    pub gas_type: Seq<char>,
    pub agreement_id: Option<Seq<char>>,
    pub price_rule_id: Option<Seq<char>>,
}

/// Result of gas fill pricing.
#[derive(Debug, Clone)]
pub struct GasFillResult {
    pub cost_per_fill: MoneyResponse,
    pub charge_per_fill: MoneyResponse,
    pub total_cost: MoneyResponse,
    pub total_charge: MoneyResponse,
    pub fills_count: i32,
    pub gas_type: String,
    pub agreement_id: Option<String>,
    pub price_rule_id: Option<String>,
}

impl View for GasFillResult {
    type V = GasFill;

    open spec fn view(&self) -> GasFill {
        GasFill {
            cost_per_fill: self.cost_per_fill@,
            charge_per_fill: self.charge_per_fill@,
            total_cost: self.total_cost@,
            total_charge: self.total_charge@,
            fills_count: self.fills_count,
            gas_type: self.gas_type@,
            agreement_id: match self.agreement_id {
                Some(id) => Some(id@),
                None => None,
            },
            price_rule_id: match self.price_rule_id {
                Some(id) => Some(id@),
                None => None,
            },
        }
    }
}

/// The error for a fill count of zero or less.
pub open spec fn no_fills() -> Failure {
    Failure::configuration("Fills count must be positive"@, "fills_count <= 0"@)
}

/// The error for terms that do not price the gas `gas_type`.
pub open spec fn no_gas_pricing(id: u128, gas_type: Seq<char>) -> Failure {
    Failure::configuration(
        agreement_sentence(id, " missing pricing for gas type '"@ + gas_type + "'"@),
        "gas_fills."@ + lowercase_text(gas_type) + " not in agreement.terms"@,
    )
}

/// The amount under `key` of a gas entry, or zero where it has no readable one.
pub open spec fn amount_or_zero(pricing: TermValue, key: Seq<char>) -> Dec {
    match amount_field(pricing, key) {
        Some(a) => a,
        None => Dec::whole(0),
    }
}

/// What `fills_count` fills of `gas_type` cost and are charged under an
/// agreement. The cost per fill is that of the terms; the charge per fill is
/// the override where one is given, else that of the terms.
pub open spec fn gas_fill_cost(
    agreement: Agreement,
    gas_type: Seq<char>,
    fills_count: i32,
    charge_override: Option<Dec>,
) -> Result<GasFill, Failure> {
    if fills_count <= 0 {
        Err(no_fills())
    } else {
        match agreement.terms.field("gas_fills"@) {
            None => Err(
                Failure::configuration(
                    agreement_sentence(agreement.id, " missing 'gas_fills' in terms"@),
                    "gas_fills not in agreement.terms"@,
                ),
            ),
            Some(fills) => match fills.field_ignoring_case(gas_type) {
                None => Err(no_gas_pricing(agreement.id, gas_type)),
                Some(pricing) => {
                    let cost = amount_or_zero(pricing, "cost"@);
                    let charge = match charge_override {
                        Some(given) => given,
                        None => amount_or_zero(pricing, "charge"@),
                    };
                    let count = Dec::whole(fills_count as int);
                    let currency = currency_field(pricing);
                    if cost.can_mul(count) && charge.can_mul(count) {
                        Ok(
                            GasFill {
                                cost_per_fill: Money { amount: cost, currency },
                                charge_per_fill: Money { amount: charge, currency },
                                total_cost: Money { amount: cost.times(count), currency },
                                total_charge: Money { amount: charge.times(count), currency },
                                fills_count,
                                gas_type,
                                agreement_id: Some(uuid_text(agreement.id)),
                                price_rule_id: None,
                            },
                        )
                    } else {
                        Err(out_of_range(agreement.id))
                    }
                },
            },
        }
    }
}

fn read_amount_or_zero(pricing: &TermValue, key: &str) -> (r: Amount)
    ensures
        r@ == amount_or_zero(*pricing, key@),
{
    match read_amount_field(pricing, key) {
        Some(a) => a,
        None => Amount::zero(),
    }
}

/// Prices `fills_count` fills of `gas_type` under an agreement.
pub fn gas_fills_from_agreement(
    agreement: &Agreement,
    gas_type: &str,
    fills_count: i32,
    customer_charge_override: Option<Amount>,
) -> (r: Result<GasFillResult, PricingError>)
    ensures
        ({
            let given = match customer_charge_override {
                Some(a) => Some(a@),
                None => None,
            };
            match r {
                Ok(fill) => gas_fill_cost(*agreement, gas_type@, fills_count, given) == Ok::<
                    GasFill,
                    Failure,
                >(fill@),
                Err(e) => gas_fill_cost(*agreement, gas_type@, fills_count, given) == Err::<
                    GasFill,
                    Failure,
                >(e@),
            }
        }),
{
    if fills_count <= 0 {
        return Err(
            PricingError::configuration(
                "Fills count must be positive".to_owned(),
                "fills_count <= 0",
            ),
        );
    }
    let fills = match agreement.terms.get("gas_fills") {
        Some(fills) => fills,
        None => {
            return Err(
                PricingError::configuration(
                    agreement_message(agreement.id, " missing 'gas_fills' in terms"),
                    "gas_fills not in agreement.terms",
                ),
            );
        },
    };
    let pricing = match fills.get_ignoring_case(gas_type) {
        Some(pricing) => pricing,
        None => {
            let tail = join3(" missing pricing for gas type '", gas_type, "'");
            let lowered = to_lowercase(gas_type);
            let violation = join3("gas_fills.", lowered.as_str(), " not in agreement.terms");
            return Err(
                PricingError::configuration(
                    agreement_message(agreement.id, tail.as_str()),
                    violation.as_str(),
                ),
            );
        },
    };
    let cost = read_amount_or_zero(pricing, "cost");
    let charge = match customer_charge_override {
        Some(given) => given,
        None => read_amount_or_zero(pricing, "charge"),
    };
    let count = Amount::from_i32(fills_count);
    let currency = read_currency_field(pricing);
    let totals = match cost.checked_mul(&count) {
        Some(total_cost) => match charge.checked_mul(&count) {
            Some(total_charge) => Some((total_cost, total_charge)),
            None => None,
        },
        None => None,
    };
    match totals {
        Some((total_cost, total_charge)) => Ok(
            GasFillResult {
                cost_per_fill: MoneyResponse::new(cost, currency.as_str()),
                charge_per_fill: MoneyResponse::new(charge, currency.as_str()),
                total_cost: MoneyResponse::new(total_cost, currency.as_str()),
                total_charge: MoneyResponse::new(total_charge, currency.as_str()),
                fills_count,
                gas_type: gas_type.to_owned(),
                agreement_id: Some(uuid_to_text(agreement.id)),
                price_rule_id: None,
            },
        ),
        None => Err(out_of_range_error(agreement.id)),
    }
}

/// An explicit charge replaces the charge of the terms: with an override the
/// charge per fill is the override, whatever the terms say, and the cost per
/// fill is still that of the terms.
pub proof fn lemma_override_replaces_charge(
    agreement: Agreement,
    gas_type: Seq<char>,
    fills_count: i32,
    given: Dec,
)
    ensures
        gas_fill_cost(agreement, gas_type, fills_count, Some(given)) matches Ok(fill) ==> {
            &&& fill.charge_per_fill.amount == given
            &&& fill.total_charge.amount == given.times(Dec::whole(fills_count as int))
            &&& gas_fill_cost(agreement, gas_type, fills_count, None) matches Ok(plain)
                ==> plain.cost_per_fill == fill.cost_per_fill && plain.total_cost
                == fill.total_cost
        },
{
}

/// The priced component, as numbers and sequences of characters.
pub struct ComponentPricing {
    pub charge_amount: Dec,
    pub charge_currency: Seq<char>,
    pub cost_amount: Option<Dec>,
    pub cost_currency: Seq<char>,
    pub price_rule_id: Seq<char>,
    pub has_cost: bool,
}

/// Result of component pricing resolution.
#[derive(Debug, Clone)]
pub struct ComponentPricingResult {
    pub charge_amount: Amount,
    pub charge_currency: String,
    pub cost_amount: Option<Amount>,
    pub cost_currency: String,
    pub price_rule_id: String,
    pub has_cost: bool,
}

impl View for ComponentPricingResult {
    type V = ComponentPricing;

    open spec fn view(&self) -> ComponentPricing {
        ComponentPricing {
            charge_amount: self.charge_amount@,
            charge_currency: self.charge_currency@,
            cost_amount: match self.cost_amount {
                Some(a) => Some(a@),
                None => None,
            },
            cost_currency: self.cost_currency@,
            price_rule_id: self.price_rule_id@,
            has_cost: self.has_cost,
        }
    }
}

/// What a price rule says: its charge, its cost where it has one, and the
/// currency of the cost, which is that of the charge unless the rule names
/// another.
pub open spec fn pricing_of(price: Price) -> ComponentPricing {
    ComponentPricing {
        charge_amount: price.amount@,
        charge_currency: price.currency@,
        cost_amount: match price.cost_amount {
            Some(a) => Some(a@),
            None => None,
        },
        cost_currency: match price.cost_currency {
            Some(code) => code@,
            None => price.currency@,
        },
        price_rule_id: uuid_text(price.id),
        has_cost: price.cost_amount.is_some(),
    }
}

/// The pick at one level, where the caller names that level.
pub open spec fn level_pick(
    rows: Seq<Price>,
    catalog_item_id: u128,
    scope: Option<PriceScope>,
    at: Timestamp,
) -> Option<int> {
    match scope {
        Some(level) => best_price(rows, catalog_item_id, level, at, rows.len() as int),
        None => None,
    }
}

/// The agreement level, where the caller names an agreement.
pub open spec fn agreement_level(id: Option<u128>) -> Option<PriceScope> {
    match id {
        Some(id) => Some(PriceScope::Agreement(id)),
        None => None,
    }
}

/// The party level, where the caller names a party.
pub open spec fn party_level(id: Option<u128>) -> Option<PriceScope> {
    match id {
        Some(id) => Some(PriceScope::Party(id)),
        None => None,
    }
}

/// The organization level, where the caller names an organization.
pub open spec fn organization_level(id: Option<u128>) -> Option<PriceScope> {
    match id {
        Some(id) => Some(PriceScope::Organization(id)),
        None => None,
    }
}

/// The index of the rule that prices a catalog item: the pick of the first
/// level, in the order agreement, party, organization, global, that picks
/// anything. The first three are tried only where the caller names them.
pub open spec fn resolved_rule(
    rows: Seq<Price>,
    catalog_item_id: u128,
    organization_id: Option<u128>,
    party_id: Option<u128>,
    agreement_id: Option<u128>,
    at: Timestamp,
) -> Option<int> {
    let by_agreement = level_pick(rows, catalog_item_id, agreement_level(agreement_id), at);
    let by_party = level_pick(rows, catalog_item_id, party_level(party_id), at);
    let by_organization = level_pick(rows, catalog_item_id, organization_level(organization_id), at);
    if by_agreement.is_some() {
        by_agreement
    } else if by_party.is_some() {
        by_party
    } else if by_organization.is_some() {
        by_organization
    } else {
        level_pick(rows, catalog_item_id, Some(PriceScope::Global), at)
    }
}

/// The error for a catalog item that no level prices.
pub open spec fn no_price(catalog_item_id: u128) -> Failure {
    Failure::MissingPrice {
        catalog_item_id: uuid_text(catalog_item_id),
        context: "No price found at any scope level"@,
    }
}

/// The price of a catalog item at `at`, or why there is none.
pub open spec fn component_pricing(
    rows: Seq<Price>,
    catalog_item_id: u128,
    organization_id: Option<u128>,
    party_id: Option<u128>,
    agreement_id: Option<u128>,
    at: Timestamp,
) -> Result<ComponentPricing, Failure> {
    match resolved_rule(rows, catalog_item_id, organization_id, party_id, agreement_id, at) {
        Some(i) => Ok(pricing_of(rows[i])),
        None => Err(no_price(catalog_item_id)),
    }
}

/// The pick at one level, where the caller names that level.
fn pick_at_level<'a>(
    rows: &'a [Price],
    catalog_item_id: u128,
    scope: Option<PriceScope>,
    at: Timestamp,
) -> (r: Option<&'a Price>)
    ensures
        match r {
            Some(p) => level_pick(rows@, catalog_item_id, scope, at) matches Some(i) && *p
                == rows@[i],
            None => level_pick(rows@, catalog_item_id, scope, at).is_none(),
        },
{
    match scope {
        Some(level) => find_price(rows, catalog_item_id, level, at),
        None => None,
    }
}

/// Turns a price rule into the result of a resolution.
fn priced(price: &Price) -> (r: ComponentPricingResult)
    ensures
        r@ == pricing_of(*price),
{
    ComponentPricingResult {
        charge_amount: price.amount,
        charge_currency: price.currency.clone(),
        cost_amount: price.cost_amount,
        cost_currency: match &price.cost_currency {
            Some(code) => code.clone(),
            None => price.currency.clone(),
        },
        price_rule_id: uuid_to_text(price.id),
        has_cost: price.cost_amount.is_some(),
    }
}

/// Resolves the price of a catalog item at the instant `at`.
///
/// The levels are tried in the order agreement, party, organization, global;
/// the first three only where the caller passes the identifier. The first
/// level that has a rule in force decides, and the levels after it are not
/// looked at.
pub fn resolve_component_pricing_at(
    rows: &[Price],
    catalog_item_id: u128,
    organization_id: Option<u128>,
    party_id: Option<u128>,
    agreement_id: Option<u128>,
    at: Timestamp,
) -> (r: Result<ComponentPricingResult, PricingError>)
    ensures
        match r {
            Ok(found) => component_pricing(
                rows@,
                catalog_item_id,
                organization_id,
                party_id,
                agreement_id,
                at,
            ) == Ok::<ComponentPricing, Failure>(found@),
            Err(e) => component_pricing(
                rows@,
                catalog_item_id,
                organization_id,
                party_id,
                agreement_id,
                at,
            ) == Err::<ComponentPricing, Failure>(e@),
        },
{
    let agreement_level = match agreement_id {
        Some(id) => Some(PriceScope::Agreement(id)),
        None => None,
    };
    let party_level = match party_id {
        Some(id) => Some(PriceScope::Party(id)),
        None => None,
    };
    let organization_level = match organization_id {
        Some(id) => Some(PriceScope::Organization(id)),
        None => None,
    };
    let mut price = pick_at_level(rows, catalog_item_id, agreement_level, at);
    if price.is_none() {
        price = pick_at_level(rows, catalog_item_id, party_level, at);
    }
    if price.is_none() {
        price = pick_at_level(rows, catalog_item_id, organization_level, at);
    }
    if price.is_none() {
        price = pick_at_level(rows, catalog_item_id, Some(PriceScope::Global), at);
    }
    match price {
        Some(found) => Ok(priced(found)),
        None => Err(
            PricingError::MissingPrice {
                catalog_item_id: uuid_to_text(catalog_item_id),
                context: "No price found at any scope level".to_owned(),
            },
        ),
    }
}

/// Resolves the price of a catalog item at `as_of`, or now where no instant
/// is given.
pub fn resolve_component_pricing(
    rows: &[Price],
    catalog_item_id: u128,
    organization_id: Option<u128>,
    party_id: Option<u128>,
    agreement_id: Option<u128>,
    as_of: Option<Timestamp>,
) -> (r: Result<ComponentPricingResult, PricingError>)
    ensures
        exists|at: Timestamp|
            (as_of matches Some(given) ==> at == given) && match r {
                Ok(found) => #[trigger] component_pricing(
                    rows@,
                    catalog_item_id,
                    organization_id,
                    party_id,
                    agreement_id,
                    at,
                ) == Ok::<ComponentPricing, Failure>(found@),
                Err(e) => component_pricing(
                    rows@,
                    catalog_item_id,
                    organization_id,
                    party_id,
                    agreement_id,
                    at,
                ) == Err::<ComponentPricing, Failure>(e@),
            },
{
    let at = match as_of {
        Some(given) => given,
        None => Timestamp::now(),
    };
    resolve_component_pricing_at(
        rows,
        catalog_item_id,
        organization_id,
        party_id,
        agreement_id,
        at,
    )
}

/// The levels are tried in order and the first hit decides: a rule in force
/// for the named agreement is the answer; failing that, one for the named
/// party; failing that, one for the named organization; and only then a
/// global one. In particular, with a rule for the named party and a global
/// rule both in force and no agreement named, the answer is the party's rule.
pub proof fn lemma_first_level_decides(
    rows: Seq<Price>,
    catalog_item_id: u128,
    organization_id: Option<u128>,
    party_id: Option<u128>,
    agreement_id: Option<u128>,
    at: Timestamp,
)
    ensures
        ({
            let n = rows.len() as int;
            let answer = resolved_rule(
                rows,
                catalog_item_id,
                organization_id,
                party_id,
                agreement_id,
                at,
            );
            let by_agreement = level_pick(rows, catalog_item_id, agreement_level(agreement_id), at);
            let by_party = level_pick(rows, catalog_item_id, party_level(party_id), at);
            let by_organization = level_pick(
                rows,
                catalog_item_id,
                organization_level(organization_id),
                at,
            );
            let global = best_price(rows, catalog_item_id, PriceScope::Global, at, n);
            &&& by_agreement.is_some() ==> answer == by_agreement
            &&& by_agreement.is_none() && by_party.is_some() ==> answer == by_party
            &&& by_agreement.is_none() && by_party.is_none() && by_organization.is_some()
                ==> answer == by_organization
            &&& by_agreement.is_none() && by_party.is_none() && by_organization.is_none()
                ==> answer == global
            &&& agreement_id.is_none() && party_id.is_some() && by_party.is_some() ==> {
                &&& answer matches Some(i)
                &&& 0 <= i < n
                &&& rows[i].party_id == party_id
                &&& global matches Some(g) ==> g != i
            }
        }),
{
    let n = rows.len() as int;
    if agreement_id.is_none() {
        if let Some(party) = party_id {
            crate::pricing::queries::lemma_best_price(
                rows,
                catalog_item_id,
                PriceScope::Party(party),
                at,
                n,
            );
            crate::pricing::queries::lemma_best_price(
                rows,
                catalog_item_id,
                PriceScope::Global,
                at,
                n,
            );
        }
    }
}

/// The error for a record that no active agreement of `scope_type` covers.
/// The record is named by its kind and its identifier.
pub open spec fn no_agreement(scope_type: Seq<char>, kind: Seq<char>, id: u128) -> Failure {
    Failure::MissingVendorAgreement { scope_type, scope_ref: kind + ":"@ + uuid_text(id) }
}

fn no_agreement_error(scope_type: &str, kind: &str, id: u128) -> (r: PricingError)
    ensures
        r@ == no_agreement(scope_type@, kind@, id),
{
    let spelled = uuid_to_text(id);
    PricingError::MissingVendorAgreement {
        scope_type: scope_type.to_owned(),
        scope_ref: join3(kind, ":", spelled.as_str()),
    }
}

/// The instant a request is evaluated at: the one it names, or the current time.
fn evaluation_time(as_of: Option<Timestamp>) -> (r: Timestamp)
    ensures
        as_of matches Some(given) ==> r == given,
{
    match as_of {
        Some(given) => given,
        None => Timestamp::now(),
    }
}

/// The query for the vendor-pricing agreement of a dive site at `at`.
pub open spec fn boat_query(dive_site_content_type_id: i32, dive_site_id: u128, at: Timestamp) -> Asked {
    Asked::by_scope("vendor_pricing"@, dive_site_content_type_id, uuid_text(dive_site_id), at)
}

/// The key under which the agreement that answers a query is cached.
pub open spec fn query_key(query: Asked) -> Seq<char> {
    agreement_key_text(query.scope_type, query.content_type_id, query.object_id)
}

/// Where a boat-cost request stands after the cache was consulted.
#[derive(Debug)]
pub enum BoatCostStep {
    /// The request is answered: by an error of the caller's making, or from a
    /// cached agreement.
    Done(Result<BoatCostResult, PricingError>),
    /// The cache has no agreement that is active at the instant asked about;
    /// the store is to answer this query.
    QueryStore(AgreementQuery),
}

/// Whether `outcome` is what pricing under `agreement` gives.
pub open spec fn is_boat_cost_under(
    outcome: Result<BoatCostResult, PricingError>,
    agreement: Agreement,
    diver_count: i32,
) -> bool {
    match outcome {
        Ok(cost) => boat_cost_under(agreement, diver_count) == Ok::<BoatCost, Failure>(cost@),
        Err(e) => boat_cost_under(agreement, diver_count) == Err::<BoatCost, Failure>(e@),
    }
}

/// What the cache's answer means for a boat-cost request at the instant `at`.
pub open spec fn boat_cost_step(
    cached: Option<Snapshot>,
    dive_site_content_type_id: i32,
    dive_site_id: u128,
    diver_count: i32,
    at: Timestamp,
    step: BoatCostStep,
) -> bool {
    if diver_count <= 0 {
        step matches BoatCostStep::Done(Err(e)) && e@ == no_divers()
    } else {
        match cached {
            Some(Snapshot::Agreement(agreement)) if agreement.active_at(at) => {
                step matches BoatCostStep::Done(outcome) && is_boat_cost_under(
                    outcome,
                    agreement,
                    diver_count,
                )
            },
            _ => step matches BoatCostStep::QueryStore(query) && query@ == boat_query(
                dive_site_content_type_id,
                dive_site_id,
                at,
            ),
        }
    }
}

/// Decides a boat-cost request from what the cache answered for the key of
/// the dive site, at the instant `at`.
///
/// A diver count of zero or less is refused. A cached agreement that is
/// active at `at` is priced. Anything else, be it a miss, a snapshot of
/// another kind or an agreement that is not active at `at`, sends the request
/// to the store.
pub fn boat_cost_from_cached(
    cached: Option<Arc<Snapshot>>,
    dive_site_content_type_id: i32,
    dive_site_id: u128,
    diver_count: i32,
    at: Timestamp,
) -> (r: BoatCostStep)
    ensures
        boat_cost_step(
            match cached {
                Some(snapshot) => Some(*snapshot),
                None => None,
            },
            dive_site_content_type_id,
            dive_site_id,
            diver_count,
            at,
            r,
        ),
{
    if diver_count <= 0 {
        return BoatCostStep::Done(
            Err(
                PricingError::configuration(
                    "Diver count must be positive".to_owned(),
                    "diver_count <= 0",
                ),
            ),
        );
    }
    match cached {
        Some(snapshot) => {
            match &*snapshot {
                Snapshot::Agreement(agreement) => {
                    if agreement.is_valid_at(at) {
                        return BoatCostStep::Done(boat_cost_from_agreement(agreement, diver_count));
                    }
                },
                _ => {},
            }
        },
        None => {},
    }
    let site = uuid_to_text(dive_site_id);
    BoatCostStep::QueryStore(
        AgreementQuery::by_scope("vendor_pricing", dive_site_content_type_id, site.as_str(), at),
    )
}

/// Starts a boat-cost request.
///
/// A diver count of zero or less is refused at once. Otherwise the agreement
/// cached for the dive site is used if it is active at the instant asked
/// about, which is `as_of` or, without one, now; a cached agreement that is
/// not active then is passed over, not removed. Where the cache gives none,
/// the request goes on with [`complete_boat_cost`] once the store has
/// answered the query returned here.
pub fn calculate_boat_cost(
    cache: &AppCache,
    dive_site_content_type_id: i32,
    dive_site_id: u128,
    diver_count: i32,
    as_of: Option<Timestamp>,
) -> (r: BoatCostStep)
    ensures
        diver_count <= 0 ==> (r matches BoatCostStep::Done(Err(e)) && e@ == no_divers()),
        diver_count > 0 ==> exists|at: Timestamp|
            {
                let asked = #[trigger] boat_query(dive_site_content_type_id, dive_site_id, at);
                &&& as_of matches Some(given) ==> at == given
                &&& match r {
                    BoatCostStep::Done(outcome) => {
                        &&& cache.entries(Namespace::Agreements).contains_key(query_key(asked))
                        &&& cache.entries(Namespace::Agreements)[query_key(asked)] matches Snapshot::Agreement(
                            agreement,
                        )
                        &&& agreement.active_at(at)
                        &&& is_boat_cost_under(outcome, agreement, diver_count)
                    },
                    BoatCostStep::QueryStore(query) => query@ == asked,
                }
            },
{
    if diver_count <= 0 {
        return BoatCostStep::Done(
            Err(
                PricingError::configuration(
                    "Diver count must be positive".to_owned(),
                    "diver_count <= 0",
                ),
            ),
        );
    }
    let at = evaluation_time(as_of);
    let site = uuid_to_text(dive_site_id);
    let key = AppCache::agreement_key("vendor_pricing", dive_site_content_type_id, site.as_str());
    let cached = cache.get(Namespace::Agreements, key.as_str());
    boat_cost_from_cached(cached, dive_site_content_type_id, dive_site_id, diver_count, at)
}

/// What the store's answer to a query picks: the index of the matching row
/// that started latest, or none where the store failed or has no match.
pub open spec fn store_pick(reply: Option<Seq<Agreement>>, query: Asked) -> Option<int> {
    match reply {
        Some(rows) => latest_agreement(rows, query, rows.len() as int),
        None => None,
    }
}

/// Finishes a boat-cost request with the store's answer to its query; `None`
/// stands for a store that could not answer.
///
/// Of the rows that answer the query the one that started latest is priced
/// and then cached under the key of the query, in place of whatever was
/// there. Where the store failed or has no such row, the request fails and
/// the cache stays as it was.
pub fn complete_boat_cost(
    cache: &mut AppCache,
    query: &AgreementQuery,
    dive_site_id: u128,
    diver_count: i32,
    reply: Option<Vec<Agreement>>,
) -> (r: Result<BoatCostResult, PricingError>)
    ensures
        ({
            let rows = match reply {
                Some(rows) => Some(rows@),
                None => None,
            };
            match store_pick(rows, query@) {
                Some(i) => {
                    &&& is_boat_cost_under(r, rows.unwrap()[i], diver_count)
                    &&& final(cache).entries(Namespace::Agreements) == old(cache).entries(
                        Namespace::Agreements,
                    ).insert(query_key(query@), Snapshot::Agreement(rows.unwrap()[i]))
                    &&& final(cache).same_except(*old(cache), Namespace::Agreements)
                },
                None => {
                    &&& r matches Err(e) && e@ == no_agreement(
                        "vendor_pricing"@,
                        "DiveSite"@,
                        dive_site_id,
                    )
                    &&& *final(cache) == *old(cache)
                },
            }
        }),
{
    let mut rows = match reply {
        Some(rows) => rows,
        None => {
            return Err(no_agreement_error("vendor_pricing", "DiveSite", dive_site_id));
        },
    };
    let index = match find_agreement_index(rows.as_slice(), query) {
        Some(index) => index,
        None => {
            return Err(no_agreement_error("vendor_pricing", "DiveSite", dive_site_id));
        },
    };
    let outcome = boat_cost_from_agreement(&rows[index], diver_count);
    let key = AppCache::agreement_key(
        query.scope_type.as_str(),
        query.content_type_id,
        query.object_id.as_str(),
    );
    let agreement = rows.swap_remove(index);
    cache.insert(Namespace::Agreements, key, Snapshot::Agreement(agreement));
    outcome
}

/// The query for the gas-vendor agreement of a dive shop at `at`.
pub open spec fn gas_query(dive_shop_content_type_id: i32, dive_shop_id: u128, at: Timestamp) -> Asked {
    Asked::by_gas_buyer(dive_shop_content_type_id, uuid_text(dive_shop_id), at)
}

/// Starts a gas-fill request about the instant `at`: refuses a fill count of
/// zero or less, and otherwise says what to ask the store.
pub fn gas_fill_query_at(
    dive_shop_content_type_id: i32,
    dive_shop_id: u128,
    fills_count: i32,
    at: Timestamp,
) -> (r: Result<AgreementQuery, PricingError>)
    ensures
        match r {
            Ok(query) => fills_count > 0 && query@ == gas_query(
                dive_shop_content_type_id,
                dive_shop_id,
                at,
            ),
            Err(e) => fills_count <= 0 && e@ == no_fills(),
        },
{
    if fills_count <= 0 {
        return Err(
            PricingError::configuration(
                "Fills count must be positive".to_owned(),
                "fills_count <= 0",
            ),
        );
    }
    let shop = uuid_to_text(dive_shop_id);
    Ok(AgreementQuery::by_gas_buyer(dive_shop_content_type_id, shop.as_str(), at))
}

/// Starts a gas-fill request about `as_of` or, without one, about now.
/// Gas-vendor agreements are not cached: every request asks the store.
pub fn gas_fill_query(
    dive_shop_content_type_id: i32,
    dive_shop_id: u128,
    fills_count: i32,
    as_of: Option<Timestamp>,
) -> (r: Result<AgreementQuery, PricingError>)
    ensures
        match r {
            Ok(query) => fills_count > 0 && exists|at: Timestamp|
                (as_of matches Some(given) ==> at == given) && query@ == #[trigger] gas_query(
                    dive_shop_content_type_id,
                    dive_shop_id,
                    at,
                ),
            Err(e) => fills_count <= 0 && e@ == no_fills(),
        },
{
    gas_fill_query_at(dive_shop_content_type_id, dive_shop_id, fills_count, evaluation_time(as_of))
}

/// What a gas-fill request comes to, given the store's answer to its query.
pub open spec fn gas_fills_outcome(
    reply: Option<Seq<Agreement>>,
    query: Asked,
    dive_shop_id: u128,
    gas_type: Seq<char>,
    fills_count: i32,
    charge_override: Option<Dec>,
) -> Result<GasFill, Failure> {
    if fills_count <= 0 {
        Err(no_fills())
    } else {
        match store_pick(reply, query) {
            Some(i) => gas_fill_cost(reply.unwrap()[i], gas_type, fills_count, charge_override),
            None => Err(no_agreement("gas_vendor_pricing"@, "Organization"@, dive_shop_id)),
        }
    }
}

/// Prices gas fills from the store's answer to the query of
/// [`gas_fill_query`]; `None` stands for a store that could not answer.
///
/// Of the rows that answer the query the one that started latest is priced.
/// Where the store failed or has no such row, the request fails for want of
/// an agreement.
pub fn calculate_gas_fills(
    reply: Option<&[Agreement]>,
    query: &AgreementQuery,
    dive_shop_id: u128,
    gas_type: &str,
    fills_count: i32,
    customer_charge_override: Option<Amount>,
) -> (r: Result<GasFillResult, PricingError>)
    ensures
        ({
            let rows = match reply {
                Some(rows) => Some(rows@),
                None => None,
            };
            let given = match customer_charge_override {
                Some(a) => Some(a@),
                None => None,
            };
            let expected = gas_fills_outcome(
                rows,
                query@,
                dive_shop_id,
                gas_type@,
                fills_count,
                given,
            );
            match r {
                Ok(fill) => expected == Ok::<GasFill, Failure>(fill@),
                Err(e) => expected == Err::<GasFill, Failure>(e@),
            }
        }),
{
    if fills_count <= 0 {
        return Err(
            PricingError::configuration(
                "Fills count must be positive".to_owned(),
                "fills_count <= 0",
            ),
        );
    }
    let found = match reply {
        Some(rows) => find_agreement(rows, query),
        None => None,
    };
    match found {
        Some(agreement) => gas_fills_from_agreement(
            agreement,
            gas_type,
            fills_count,
            customer_charge_override,
        ),
        None => Err(no_agreement_error("gas_vendor_pricing", "Organization", dive_shop_id)),
    }
}

} // verus!
