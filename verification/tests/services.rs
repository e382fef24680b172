use happydiving_web::cache::{AppCache, Namespace, Snapshot};
use happydiving_web::pricing::amount::Amount;
use happydiving_web::pricing::models::{Agreement, Price, TermEntry, TermValue, Timestamp};
use happydiving_web::pricing::services::{
    boat_cost_from_agreement, boat_cost_from_cached, boat_cost_from_quotient, calculate_boat_cost, calculate_gas_fills,
    complete_boat_cost, gas_fill_query, gas_fill_query_at, gas_fills_from_agreement,
    read_boat_tier, resolve_component_pricing, resolve_component_pricing_at, BoatCostStep,
    PricingError,
};
use std::sync::Arc;

const SITE: u128 = 0x0123_4567_89ab_cdef_0123_4567_89ab_cdef;
const AGREEMENT: u128 = 0xa1a2_a3a4_b1b2_c1c2_d1d2_d3d4_d5d6_d7d8;
const AGREEMENT_TEXT: &str = "a1a2a3a4-b1b2-c1c2-d1d2-d3d4d5d6d7d8";

fn dec(text: &str) -> Amount {
    Amount::parse(text).unwrap()
}

fn at(secs: i64) -> Timestamp {
    Timestamp::new(secs, 0)
}

fn entry(key: &str, value: TermValue) -> TermEntry {
    TermEntry { key: key.to_string(), value }
}

fn text(value: &str) -> TermValue {
    TermValue::Text(value.to_string())
}

fn site_text() -> String {
    // The hyphenated form of SITE: 8-4-4-4-12 digits.
    "01234567-89ab-cdef-0123-456789abcdef".to_string()
}

fn agreement_with(terms: Vec<TermEntry>) -> Agreement {
    Agreement {
        id: AGREEMENT,
        party_a_content_type_id: Some(7),
        party_a_id: site_text(),
        party_b_content_type_id: Some(8),
        party_b_id: "vendor".to_string(),
        scope_type: "vendor_pricing".to_string(),
        scope_ref_content_type_id: Some(12),
        scope_ref_id: site_text(),
        terms: TermValue::Object(terms),
        valid_from: at(100),
        valid_to: None,
        current_version: 1,
        deleted_at: None,
    }
}

fn boat_agreement() -> Agreement {
    agreement_with(vec![entry(
        "boat_charter",
        TermValue::Object(vec![
            entry("base_cost", text("1500.00")),
            entry("included_divers", TermValue::Integer(4)),
            entry("overage_per_diver", TermValue::Decimal(Amount::new(2505, 1))),
            entry("currency", text("USD")),
        ]),
    )])
}

fn gas_agreement() -> Agreement {
    let mut agreement = agreement_with(vec![entry(
        "gas_fills",
        TermValue::Object(vec![
            entry(
                "air",
                TermValue::Object(vec![entry("cost", text("40")), entry("charge", text("60.50"))]),
            ),
            entry(
                "EAN32",
                TermValue::Object(vec![
                    entry("cost", TermValue::Integer(90)),
                    entry("charge", TermValue::Decimal(Amount::new(1205, 1))),
                    entry("currency", text("USD")),
                ]),
            ),
        ]),
    )]);
    agreement.scope_type = "gas_vendor_pricing".to_string();
    agreement
}

fn configuration(error: PricingError) -> (String, Vec<String>) {
    match error {
        PricingError::ConfigurationError { message, errors } => (message, errors),
        other => panic!("not a configuration error: {:?}", other),
    }
}

fn price(id: u128, priority: i32) -> Price {
    Price {
        id,
        catalog_item_id: 500,
        amount: Amount::new(1000, 2),
        currency: "MXN".to_string(),
        cost_amount: None,
        cost_currency: None,
        organization_id: None,
        party_id: None,
        agreement_id: None,
        valid_from: at(100),
        valid_to: None,
        priority,
    }
}

#[test]
fn test_pricing_error_display() {
    let err = PricingError::MissingVendorAgreement {
        scope_type: "vendor_pricing".to_string(),
        scope_ref: "DiveSite:abc".to_string(),
    };
    assert!(err.to_string().contains("vendor_pricing"));

    let err = PricingError::MissingPrice {
        catalog_item_id: "123".to_string(),
        context: "test".to_string(),
    };
    assert!(err.to_string().contains("123"));

    let err = PricingError::ConfigurationError {
        message: "test error".to_string(),
        errors: vec![],
    };
    assert!(err.to_string().contains("test error"));
}

#[test]
fn test_boat_cost_validation() {
    // Validation that needs no store is covered by the tests below; this one
    // only has to run.
}

#[test]
fn error_sentences_are_exact() {
    let err = PricingError::MissingVendorAgreement {
        scope_type: "vendor_pricing".to_string(),
        scope_ref: "DiveSite:abc".to_string(),
    };
    assert_eq!(err.to_string(), "No vendor agreement found for vendor_pricing:DiveSite:abc");
    let err = PricingError::MissingPrice {
        catalog_item_id: "123".to_string(),
        context: "test".to_string(),
    };
    assert_eq!(err.to_string(), "No price found for catalog item 123 (test)");
    let err = PricingError::ConfigurationError {
        message: "test error".to_string(),
        errors: vec!["a".to_string()],
    };
    assert_eq!(err.to_string(), "Configuration error: test error");
}

#[test]
fn boat_cost_within_the_included_divers_is_the_base_cost() {
    let cost = boat_cost_from_agreement(&boat_agreement(), 3).unwrap();
    assert_eq!(cost.overage_count, 0);
    assert_eq!(cost.total.amount, dec("1500"));
    assert_eq!(cost.base_cost.amount, dec("1500"));
    assert_eq!(cost.per_diver.amount, dec("500"));
    assert_eq!(cost.included_divers, 4);
    assert_eq!(cost.diver_count, 3);
    assert_eq!(cost.overage_per_diver.amount, dec("250.5"));
    assert_eq!(cost.total.currency, "USD");
    assert_eq!(cost.per_diver.currency, "USD");
    assert_eq!(cost.agreement_id.as_deref(), Some(AGREEMENT_TEXT));

    let full = boat_cost_from_agreement(&boat_agreement(), 4).unwrap();
    assert_eq!(full.overage_count, 0);
    assert_eq!(full.total.amount, dec("1500"));
    assert_eq!(full.per_diver.amount, dec("375"));
}

#[test]
fn boat_cost_above_the_included_divers_adds_the_overage() {
    let cost = boat_cost_from_agreement(&boat_agreement(), 7).unwrap();
    assert_eq!(cost.overage_count, 3);
    assert_eq!(cost.total.amount, dec("2251.50"));
    // 2251.5 / 7 = 321.642857...
    assert_eq!(cost.per_diver.amount, dec("321.64"));
    assert_eq!(cost.base_cost.amount, dec("1500"));
}

#[test]
fn boat_cost_defaults_to_four_divers_and_pesos() {
    let agreement = agreement_with(vec![entry(
        "boat_charter",
        TermValue::Object(vec![
            entry("base_cost", TermValue::Integer(1000)),
            entry("overage_per_diver", text("100")),
        ]),
    )]);
    let tier = read_boat_tier(&agreement).unwrap();
    assert_eq!(tier.included_divers, 4);
    assert_eq!(tier.currency, "MXN");
    assert_eq!(tier.base_cost, dec("1000"));
    assert_eq!(tier.overage_per_diver, Some(dec("100")));
    let cost = boat_cost_from_agreement(&agreement, 6).unwrap();
    assert_eq!(cost.overage_count, 2);
    assert_eq!(cost.total.amount, dec("1200"));
    assert_eq!(cost.per_diver.amount, dec("200"));
    assert_eq!(cost.total.currency, "MXN");
}

#[test]
fn boat_cost_refuses_a_diver_count_of_zero_or_less() {
    for count in [0, -1, i32::MIN] {
        let (message, errors) =
            configuration(boat_cost_from_agreement(&boat_agreement(), count).unwrap_err());
        assert_eq!(message, "Diver count must be positive");
        assert_eq!(errors, vec!["diver_count <= 0".to_string()]);
    }
}

#[test]
fn boat_cost_needs_a_boat_charter() {
    let agreement = agreement_with(vec![entry("gas_fills", TermValue::Object(vec![]))]);
    let (message, errors) = configuration(boat_cost_from_agreement(&agreement, 2).unwrap_err());
    assert_eq!(
        message,
        format!("Agreement {} missing 'boat_charter' in terms", AGREEMENT_TEXT)
    );
    assert_eq!(errors, vec!["boat_charter not in agreement.terms".to_string()]);
}

#[test]
fn boat_cost_needs_a_readable_base_cost() {
    for tier in [
        vec![entry("included_divers", TermValue::Integer(4))],
        vec![entry("base_cost", text("a lot"))],
        vec![entry("base_cost", TermValue::Null)],
    ] {
        let agreement = agreement_with(vec![entry("boat_charter", TermValue::Object(tier))]);
        let (message, errors) = configuration(boat_cost_from_agreement(&agreement, 2).unwrap_err());
        assert_eq!(
            message,
            format!("Agreement {} has no readable 'base_cost' in boat_charter", AGREEMENT_TEXT)
        );
        assert_eq!(errors, vec!["boat_charter.base_cost is missing or not a number".to_string()]);
    }
}

#[test]
fn boat_cost_needs_an_overage_rate_only_for_overage() {
    let agreement = agreement_with(vec![entry(
        "boat_charter",
        TermValue::Object(vec![entry("base_cost", text("900"))]),
    )]);
    let within = boat_cost_from_agreement(&agreement, 4).unwrap();
    assert_eq!(within.total.amount, dec("900"));
    assert_eq!(within.overage_per_diver.amount, dec("0"));
    let (message, errors) = configuration(boat_cost_from_agreement(&agreement, 5).unwrap_err());
    assert_eq!(
        message,
        format!("Agreement {} has no readable 'overage_per_diver' in boat_charter", AGREEMENT_TEXT)
    );
    assert_eq!(
        errors,
        vec!["boat_charter.overage_per_diver is missing or not a number".to_string()]
    );
}

#[test]
fn boat_cost_refuses_included_divers_out_of_range() {
    let agreement = agreement_with(vec![entry(
        "boat_charter",
        TermValue::Object(vec![
            entry("base_cost", text("900")),
            entry("included_divers", TermValue::Integer(1 << 40)),
        ]),
    )]);
    let (message, errors) = configuration(boat_cost_from_agreement(&agreement, 5).unwrap_err());
    assert_eq!(
        message,
        format!("Agreement {} has an 'included_divers' out of range in boat_charter", AGREEMENT_TEXT)
    );
    assert_eq!(errors, vec!["boat_charter.included_divers is out of range".to_string()]);
}

#[test]
fn boat_cost_refuses_amounts_out_of_range() {
    let agreement = agreement_with(vec![entry(
        "boat_charter",
        TermValue::Object(vec![
            entry("base_cost", text("79228162514264337593543950335")),
            entry("overage_per_diver", text("1")),
        ]),
    )]);
    let (message, errors) = configuration(boat_cost_from_agreement(&agreement, 5).unwrap_err());
    assert_eq!(
        message,
        format!("Agreement {} gives amounts that are out of range", AGREEMENT_TEXT)
    );
    assert_eq!(errors, vec!["amount not representable".to_string()]);
}

#[test]
fn boat_cost_comes_from_a_cached_agreement() {
    let mut cache = AppCache::new();
    let key = AppCache::agreement_key("vendor_pricing", 12, &site_text());
    assert_eq!(key, format!("vendor_pricing:12:{}", site_text()));
    cache.insert(Namespace::Agreements, key, Snapshot::Agreement(boat_agreement()));
    match calculate_boat_cost(&cache, 12, SITE, 7, Some(at(500))) {
        BoatCostStep::Done(outcome) => {
            assert_eq!(outcome.unwrap().total.amount, dec("2251.50"));
        }
        BoatCostStep::QueryStore(query) => panic!("asked the store: {:?}", query),
    }
}

#[test]
fn boat_cost_passes_over_a_cached_agreement_that_is_not_active() {
    let mut cache = AppCache::new();
    let key = AppCache::agreement_key("vendor_pricing", 12, &site_text());
    cache.insert(Namespace::Agreements, key.clone(), Snapshot::Agreement(boat_agreement()));
    match calculate_boat_cost(&cache, 12, SITE, 7, Some(at(50))) {
        BoatCostStep::QueryStore(query) => {
            assert_eq!(query.scope_type, "vendor_pricing");
            assert_eq!(query.content_type_id, 12);
            assert_eq!(query.object_id, site_text());
            assert_eq!(query.at, at(50));
        }
        BoatCostStep::Done(_) => panic!("used an agreement that was not active"),
    }
    // Passing over does not evict.
    assert!(cache.get(Namespace::Agreements, &key).is_some());
}

#[test]
fn boat_cost_asks_the_store_on_a_miss_and_caches_its_answer() {
    let mut cache = AppCache::new();
    let query = match calculate_boat_cost(&cache, 12, SITE, 5, Some(at(500))) {
        BoatCostStep::QueryStore(query) => query,
        BoatCostStep::Done(_) => panic!("answered from an empty cache"),
    };
    let mut older = boat_agreement();
    older.id = 1;
    older.valid_from = at(10);
    let rows = vec![older, boat_agreement()];
    let cost = complete_boat_cost(&mut cache, &query, SITE, 5, Some(rows)).unwrap();
    assert_eq!(cost.agreement_id.as_deref(), Some(AGREEMENT_TEXT));
    assert_eq!(cost.total.amount, dec("1750.5"));
    let key = AppCache::agreement_key("vendor_pricing", 12, &site_text());
    match &*cache.get(Namespace::Agreements, &key).unwrap() {
        Snapshot::Agreement(cached) => assert_eq!(cached.id, AGREEMENT),
        other => panic!("cached {:?}", other),
    }
    match calculate_boat_cost(&cache, 12, SITE, 5, Some(at(500))) {
        BoatCostStep::Done(outcome) => assert_eq!(outcome.unwrap().total.amount, dec("1750.5")),
        BoatCostStep::QueryStore(_) => panic!("asked the store again"),
    }
}

#[test]
fn boat_cost_without_an_agreement_fails_and_caches_nothing() {
    let mut cache = AppCache::new();
    let query = match calculate_boat_cost(&cache, 12, SITE, 5, Some(at(500))) {
        BoatCostStep::QueryStore(query) => query,
        BoatCostStep::Done(_) => panic!("answered from an empty cache"),
    };
    for reply in [None, Some(vec![])] {
        match complete_boat_cost(&mut cache, &query, SITE, 5, reply).unwrap_err() {
            PricingError::MissingVendorAgreement { scope_type, scope_ref } => {
                assert_eq!(scope_type, "vendor_pricing");
                assert_eq!(scope_ref, format!("DiveSite:{}", site_text()));
            }
            other => panic!("{:?}", other),
        }
    }
    let key = AppCache::agreement_key("vendor_pricing", 12, &site_text());
    assert!(cache.get(Namespace::Agreements, &key).is_none());
}

#[test]
fn boat_cost_is_refused_before_the_cache_is_read() {
    let cache = AppCache::new();
    match calculate_boat_cost(&cache, 12, SITE, 0, None) {
        BoatCostStep::Done(outcome) => {
            let (message, _) = configuration(outcome.unwrap_err());
            assert_eq!(message, "Diver count must be positive");
        }
        BoatCostStep::QueryStore(_) => panic!("asked the store for no divers"),
    }
}

#[test]
fn boat_cost_without_an_instant_asks_about_now() {
    let cache = AppCache::new();
    match calculate_boat_cost(&cache, 12, SITE, 2, None) {
        BoatCostStep::QueryStore(query) => {
            // Some time after 2020 and before 2100.
            assert!(query.at.secs > 1_577_836_800);
            assert!(query.at.secs < 4_102_444_800);
        }
        BoatCostStep::Done(_) => panic!("answered from an empty cache"),
    }
}

#[test]
fn gas_fills_multiply_cost_and_charge() {
    let fill = gas_fills_from_agreement(&gas_agreement(), "air", 3, None).unwrap();
    assert_eq!(fill.cost_per_fill.amount, dec("40"));
    assert_eq!(fill.charge_per_fill.amount, dec("60.50"));
    assert_eq!(fill.total_cost.amount, dec("120"));
    assert_eq!(fill.total_charge.amount, dec("181.50"));
    assert_eq!(fill.fills_count, 3);
    assert_eq!(fill.gas_type, "air");
    assert_eq!(fill.cost_per_fill.currency, "MXN");
    assert_eq!(fill.agreement_id.as_deref(), Some(AGREEMENT_TEXT));
    assert!(fill.price_rule_id.is_none());
}

#[test]
fn gas_type_is_matched_without_regard_to_case() {
    for requested in ["ean32", "EAN32", "Ean32"] {
        let fill = gas_fills_from_agreement(&gas_agreement(), requested, 2, None).unwrap();
        assert_eq!(fill.cost_per_fill.amount, dec("90"));
        assert_eq!(fill.total_charge.amount, dec("241"));
        assert_eq!(fill.gas_type, requested);
        assert_eq!(fill.total_cost.currency, "USD");
    }
    let fill = gas_fills_from_agreement(&gas_agreement(), "AIR", 1, None).unwrap();
    assert_eq!(fill.total_cost.amount, dec("40"));
}

#[test]
fn gas_charge_override_replaces_the_charge_of_the_terms() {
    let fill = gas_fills_from_agreement(&gas_agreement(), "air", 3, Some(dec("75"))).unwrap();
    assert_eq!(fill.cost_per_fill.amount, dec("40"));
    assert_eq!(fill.total_cost.amount, dec("120"));
    assert_eq!(fill.charge_per_fill.amount, dec("75"));
    assert_eq!(fill.total_charge.amount, dec("225"));
}

#[test]
fn gas_fills_refuse_a_count_of_zero_or_less() {
    let (message, errors) =
        configuration(gas_fills_from_agreement(&gas_agreement(), "air", 0, None).unwrap_err());
    assert_eq!(message, "Fills count must be positive");
    assert_eq!(errors, vec!["fills_count <= 0".to_string()]);
    let (message, _) = configuration(gas_fill_query(7, SITE, -3, Some(at(500))).unwrap_err());
    assert_eq!(message, "Fills count must be positive");
}

#[test]
fn gas_fills_need_the_gas_in_the_terms() {
    let (message, errors) =
        configuration(gas_fills_from_agreement(&gas_agreement(), "Trimix", 1, None).unwrap_err());
    assert_eq!(
        message,
        format!("Agreement {} missing pricing for gas type 'Trimix'", AGREEMENT_TEXT)
    );
    assert_eq!(errors, vec!["gas_fills.trimix not in agreement.terms".to_string()]);
    let (message, errors) =
        configuration(gas_fills_from_agreement(&boat_agreement(), "air", 1, None).unwrap_err());
    assert_eq!(message, format!("Agreement {} missing 'gas_fills' in terms", AGREEMENT_TEXT));
    assert_eq!(errors, vec!["gas_fills not in agreement.terms".to_string()]);
}

#[test]
fn gas_fills_without_amounts_in_the_terms_are_free() {
    let mut agreement =
        agreement_with(vec![entry(
            "gas_fills",
            TermValue::Object(vec![entry("air", TermValue::Object(vec![]))]),
        )]);
    agreement.scope_type = "gas_vendor_pricing".to_string();
    let fill = gas_fills_from_agreement(&agreement, "air", 5, None).unwrap();
    assert_eq!(fill.total_cost.amount, dec("0"));
    assert_eq!(fill.total_charge.amount, dec("0"));
}

#[test]
fn gas_fills_go_through_the_store() {
    let query = gas_fill_query(7, SITE, 3, Some(at(500))).unwrap();
    assert_eq!(query.scope_type, "gas_vendor_pricing");
    assert_eq!(query.object_id, site_text());
    assert_eq!(query.content_type_id, 7);
    let rows = vec![gas_agreement()];
    let fill = calculate_gas_fills(Some(&rows), &query, SITE, "air", 3, None).unwrap();
    assert_eq!(fill.total_charge.amount, dec("181.50"));
    for reply in [None, Some(&[][..])] {
        match calculate_gas_fills(reply, &query, SITE, "air", 3, None).unwrap_err() {
            PricingError::MissingVendorAgreement { scope_type, scope_ref } => {
                assert_eq!(scope_type, "gas_vendor_pricing");
                assert_eq!(scope_ref, format!("Organization:{}", site_text()));
            }
            other => panic!("{:?}", other),
        }
    }
    let (message, _) =
        configuration(calculate_gas_fills(Some(&rows), &query, SITE, "air", 0, None).unwrap_err());
    assert_eq!(message, "Fills count must be positive");
}

#[test]
fn price_of_the_party_is_taken_before_the_global_one() {
    let mut for_party = price(21, 0);
    for_party.party_id = Some(60);
    for_party.cost_amount = Some(dec("7.5"));
    for_party.cost_currency = Some("USD".to_string());
    let global = price(22, 100);
    let rows = vec![global, for_party];
    let found = resolve_component_pricing_at(&rows, 500, None, Some(60), None, at(200)).unwrap();
    assert_eq!(found.price_rule_id, "00000000-0000-0000-0000-000000000015");
    assert_eq!(found.charge_amount, dec("10"));
    assert_eq!(found.charge_currency, "MXN");
    assert_eq!(found.cost_amount, Some(dec("7.5")));
    assert_eq!(found.cost_currency, "USD");
    assert!(found.has_cost);
    // Without a party named, only the global rule is in reach.
    let found = resolve_component_pricing_at(&rows, 500, None, None, None, at(200)).unwrap();
    assert_eq!(found.price_rule_id, "00000000-0000-0000-0000-000000000016");
    assert!(!found.has_cost);
    assert_eq!(found.cost_amount, None);
    assert_eq!(found.cost_currency, "MXN");
}

#[test]
fn price_levels_are_tried_in_order() {
    let mut for_agreement = price(1, 0);
    for_agreement.agreement_id = Some(70);
    let mut for_party = price(2, 0);
    for_party.party_id = Some(60);
    let mut for_organization = price(3, 0);
    for_organization.organization_id = Some(50);
    let global = price(4, 0);
    let rows = vec![global, for_organization, for_party, for_agreement];
    let rule = |organization, party, agreement| {
        resolve_component_pricing_at(&rows, 500, organization, party, agreement, at(200))
            .unwrap()
            .price_rule_id
    };
    assert!(rule(Some(50), Some(60), Some(70)).ends_with("01"));
    assert!(rule(Some(50), Some(60), None).ends_with("02"));
    assert!(rule(Some(50), Some(60), Some(71)).ends_with("02"));
    assert!(rule(Some(50), None, None).ends_with("03"));
    assert!(rule(Some(50), Some(61), Some(71)).ends_with("03"));
    assert!(rule(None, None, None).ends_with("04"));
    assert!(rule(Some(51), Some(61), Some(71)).ends_with("04"));
}

#[test]
fn price_that_no_level_has_is_missing() {
    let mut for_party = price(2, 0);
    for_party.party_id = Some(60);
    let rows = vec![for_party];
    match resolve_component_pricing_at(&rows, 500, None, None, None, at(200)).unwrap_err() {
        PricingError::MissingPrice { catalog_item_id, context } => {
            assert_eq!(catalog_item_id, "00000000-0000-0000-0000-0000000001f4");
            assert_eq!(context, "No price found at any scope level");
        }
        other => panic!("{:?}", other),
    }
    assert!(resolve_component_pricing_at(&[], SITE, Some(1), Some(2), Some(3), at(200)).is_err());
}

#[test]
fn price_without_an_instant_is_resolved_now() {
    let mut not_yet = price(2, 50);
    not_yet.valid_from = at(4_102_444_800);
    let rows = vec![price(1, 0), not_yet];
    let found = resolve_component_pricing(&rows, 500, None, None, None, None).unwrap();
    assert!(found.price_rule_id.ends_with("01"));
    let found = resolve_component_pricing(&rows, 500, None, None, None, Some(at(4_102_444_800)))
        .unwrap();
    assert!(found.price_rule_id.ends_with("02"));
}

#[test]
fn identifiers_are_spelled_in_the_hyphenated_form() {
    let mut agreement = boat_agreement();
    agreement.id = SITE;
    let cost = boat_cost_from_agreement(&agreement, 1).unwrap();
    assert_eq!(cost.agreement_id.unwrap(), site_text());
    agreement.id = u128::MAX;
    let cost = boat_cost_from_agreement(&agreement, 1).unwrap();
    assert_eq!(cost.agreement_id.unwrap(), "ffffffff-ffff-ffff-ffff-ffffffffffff");
    agreement.id = 0;
    let cost = boat_cost_from_agreement(&agreement, 1).unwrap();
    assert_eq!(cost.agreement_id.unwrap(), "00000000-0000-0000-0000-000000000000");
}

#[test]
fn boat_cost_step_depends_on_what_the_cache_answered() {
    let hit = Some(Arc::new(Snapshot::Agreement(boat_agreement())));
    match boat_cost_from_cached(hit.clone(), 12, SITE, 4, at(100)) {
        BoatCostStep::Done(outcome) => assert_eq!(outcome.unwrap().per_diver.amount, dec("375")),
        BoatCostStep::QueryStore(_) => panic!("passed over an active agreement"),
    }
    // Not yet active, a miss, and a snapshot of another kind all go to the store.
    let other = Some(Arc::new(Snapshot::ContentType(
        happydiving_web::pricing::models::ContentType {
            id: 1,
            app_label: "a".to_string(),
            model: "b".to_string(),
        },
    )));
    for (cached, instant) in [(hit.clone(), at(99)), (None, at(100)), (other, at(100))] {
        match boat_cost_from_cached(cached, 12, SITE, 4, instant) {
            BoatCostStep::QueryStore(query) => {
                assert_eq!(query.scope_type, "vendor_pricing");
                assert_eq!(query.content_type_id, 12);
                assert_eq!(query.object_id, site_text());
                assert_eq!(query.at, instant);
            }
            BoatCostStep::Done(_) => panic!("answered without an active agreement"),
        }
    }
    match boat_cost_from_cached(hit, 12, SITE, 0, at(100)) {
        BoatCostStep::Done(outcome) => {
            assert_eq!(configuration(outcome.unwrap_err()).0, "Diver count must be positive")
        }
        BoatCostStep::QueryStore(_) => panic!("asked the store for no divers"),
    }
}

#[test]
fn gas_fill_query_names_the_shop_and_the_instant() {
    let query = gas_fill_query_at(7, SITE, 1, at(321)).unwrap();
    assert_eq!(query.scope_type, "gas_vendor_pricing");
    assert_eq!(query.content_type_id, 7);
    assert_eq!(query.object_id, site_text());
    assert_eq!(query.at, at(321));
    assert!(gas_fill_query_at(7, SITE, 0, at(321)).is_err());
    let now = gas_fill_query(7, SITE, 1, None).unwrap();
    assert!(now.at.secs > 1_577_836_800);
}

#[test]
fn boat_cost_from_a_quotient_rounds_it_to_the_share() {
    let tier = read_boat_tier(&boat_agreement()).unwrap();
    let cost = boat_cost_from_quotient(&tier, 7, AGREEMENT, Some(dec("321.642857"))).unwrap();
    assert_eq!(cost.total.amount, dec("2251.50"));
    assert_eq!(cost.per_diver.amount, dec("321.64"));
    assert_eq!(cost.overage_count, 3);
    assert_eq!(cost.diver_count, 7);
    assert_eq!(cost.agreement_id.as_deref(), Some(AGREEMENT_TEXT));

    // Within the included divers the rate plays no part.
    let cost = boat_cost_from_quotient(&tier, 2, AGREEMENT, Some(dec("750"))).unwrap();
    assert_eq!(cost.overage_count, 0);
    assert_eq!(cost.total.amount, dec("1500"));
    assert_eq!(cost.base_cost.amount, dec("1500"));
    assert_eq!(cost.per_diver.amount, dec("750"));

    let (message, _) =
        configuration(boat_cost_from_quotient(&tier, 2, AGREEMENT, None).unwrap_err());
    assert_eq!(
        message,
        format!("Agreement {} gives amounts that are out of range", AGREEMENT_TEXT)
    );
}

#[test]
fn boat_cost_below_the_included_divers_whatever_the_rate() {
    for rate in [None, Some("0"), Some("100"), Some("not a number")] {
        let mut tier = vec![
            entry("base_cost", text("1500")),
            entry("included_divers", TermValue::Integer(6)),
        ];
        if let Some(rate) = rate {
            tier.push(entry("overage_per_diver", text(rate)));
        }
        let agreement = agreement_with(vec![entry("boat_charter", TermValue::Object(tier))]);
        for divers in 1..=6 {
            let cost = boat_cost_from_agreement(&agreement, divers).unwrap();
            assert_eq!(cost.overage_count, 0);
            assert_eq!(cost.total.amount, dec("1500"));
            assert_eq!(cost.base_cost.amount, dec("1500"));
        }
    }
}
