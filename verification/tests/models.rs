use happydiving_web::pricing::amount::Amount;
use happydiving_web::pricing::models::{
    in_window, Agreement, CatalogItem, ContentType, Price, TermEntry, TermValue, Timestamp,
};
use happydiving_web::pricing::queries::{
    find_agreement, find_gas_vendor_agreement, find_global_price, find_price_by_agreement,
    find_price_by_organization, find_price_by_party, find_vendor_agreement,
    get_active_vendor_agreements, get_catalog_item_by_name, get_content_type,
    get_content_type_id, AgreementQuery,
};

fn at(secs: i64) -> Timestamp {
    Timestamp::new(secs, 0)
}

fn agreement(id: u128, scope_type: &str, object: &str, from: i64, to: Option<i64>) -> Agreement {
    Agreement {
        id,
        party_a_content_type_id: Some(7),
        party_a_id: "shop-1".to_string(),
        party_b_content_type_id: Some(8),
        party_b_id: "vendor-1".to_string(),
        scope_type: scope_type.to_string(),
        scope_ref_content_type_id: Some(12),
        scope_ref_id: object.to_string(),
        terms: TermValue::Object(vec![]),
        valid_from: at(from),
        valid_to: to.map(at),
        current_version: 1,
        deleted_at: None,
    }
}

fn price(id: u128, priority: i32, from: i64) -> Price {
    Price {
        id,
        catalog_item_id: 500,
        amount: Amount::new(1000, 2),
        currency: "MXN".to_string(),
        cost_amount: None,
        cost_currency: None,
        organization_id: None,
        party_id: None,
        agreement_id: None,
        valid_from: at(from),
        valid_to: None,
        priority,
    }
}

#[test]
fn timestamps_order_by_seconds_then_nanoseconds() {
    assert!(Timestamp::new(1, 999).is_before(Timestamp::new(2, 0)));
    assert!(Timestamp::new(2, 0).is_before(Timestamp::new(2, 1)));
    assert!(!Timestamp::new(2, 1).is_before(Timestamp::new(2, 1)));
    assert!(Timestamp::new(2, 1).is_at_or_before(Timestamp::new(2, 1)));
    assert!(!Timestamp::new(2, 2).is_at_or_before(Timestamp::new(2, 1)));
    assert!(Timestamp::new(-5, 0).is_before(Timestamp::new(-4, 0)));
}

#[test]
fn window_is_half_open() {
    assert!(in_window(at(100), Some(at(200)), at(100)));
    assert!(in_window(at(100), Some(at(200)), at(199)));
    assert!(!in_window(at(100), Some(at(200)), at(200)));
    assert!(!in_window(at(100), Some(at(200)), at(99)));
    assert!(in_window(at(100), None, at(1_000_000)));
}

#[test]
fn deleted_agreement_is_never_active() {
    let mut a = agreement(1, "vendor_pricing", "site", 100, Some(200));
    assert!(a.is_valid_at(at(150)));
    a.deleted_at = Some(at(500));
    assert!(!a.is_valid_at(at(150)));
    assert!(!a.is_valid_at(at(100)));
    assert!(!a.is_valid_at(at(50)));
}

#[test]
fn agreement_is_active_from_its_start_to_just_before_its_end() {
    let a = agreement(1, "vendor_pricing", "site", 100, Some(200));
    assert!(!a.is_valid_at(at(99)));
    assert!(!a.is_valid_at(Timestamp::new(99, 999_999_999)));
    assert!(a.is_valid_at(at(100)));
    assert!(a.is_valid_at(Timestamp::new(199, 999_999_999)));
    assert!(!a.is_valid_at(at(200)));
    let open = agreement(2, "vendor_pricing", "site", 100, None);
    assert!(open.is_valid_at(at(i64::MAX)));
}

#[test]
fn term_lookup_finds_the_first_entry_with_the_key() {
    let terms = TermValue::Object(vec![
        TermEntry { key: "a".to_string(), value: TermValue::Integer(1) },
        TermEntry { key: "b".to_string(), value: TermValue::Integer(2) },
        TermEntry { key: "a".to_string(), value: TermValue::Integer(3) },
    ]);
    assert_eq!(terms.get("a").unwrap().as_i64(), Some(1));
    assert_eq!(terms.get("b").unwrap().as_i64(), Some(2));
    assert!(terms.get("c").is_none());
    assert!(terms.get("A").is_none());
    assert_eq!(terms.get_ignoring_case("B").unwrap().as_i64(), Some(2));
    assert!(TermValue::Integer(1).get("a").is_none());
    assert!(TermValue::List(vec![]).get_ignoring_case("a").is_none());
}

#[test]
fn term_amounts_come_in_either_encoding() {
    assert_eq!(
        TermValue::Text("1500.50".to_string()).as_amount(),
        Some(Amount::new(150050, 2))
    );
    assert_eq!(TermValue::Integer(1500).as_amount(), Some(Amount::new(1500, 0)));
    assert_eq!(
        TermValue::Decimal(Amount::new(15005, 1)).as_amount(),
        Some(Amount::new(150050, 2))
    );
    assert!(TermValue::Text("".to_string()).as_amount().is_none());
    assert!(TermValue::Text("twelve".to_string()).as_amount().is_none());
    assert!(TermValue::Null.as_amount().is_none());
    assert!(TermValue::Bool(true).as_amount().is_none());
    assert!(TermValue::Decimal(Amount::new(4, 0)).as_i64().is_none());
    assert_eq!(TermValue::Text("MXN".to_string()).as_str(), Some("MXN"));
    assert!(TermValue::Integer(4).as_str().is_none());
}

#[test]
fn vendor_agreement_is_the_latest_started_match() {
    let rows = vec![
        agreement(1, "vendor_pricing", "site-a", 100, None),
        agreement(2, "vendor_pricing", "site-a", 300, None),
        agreement(3, "vendor_pricing", "site-b", 400, None),
        agreement(4, "vendor_pricing", "site-a", 200, None),
        agreement(5, "gas_vendor_pricing", "site-a", 350, None),
        agreement(6, "vendor_pricing", "site-a", 600, None),
    ];
    let found = find_vendor_agreement(&rows, "vendor_pricing", 12, "site-a", at(500)).unwrap();
    assert_eq!(found.id, 2);
    let found = find_vendor_agreement(&rows, "vendor_pricing", 12, "site-a", at(250)).unwrap();
    assert_eq!(found.id, 4);
    let found = find_vendor_agreement(&rows, "vendor_pricing", 12, "site-a", at(600)).unwrap();
    assert_eq!(found.id, 6);
    assert!(find_vendor_agreement(&rows, "vendor_pricing", 12, "site-a", at(99)).is_none());
    assert!(find_vendor_agreement(&rows, "vendor_pricing", 13, "site-a", at(500)).is_none());
    assert!(find_vendor_agreement(&rows, "vendor_pricing", 12, "site-c", at(500)).is_none());
    assert!(find_vendor_agreement(&[], "vendor_pricing", 12, "site-a", at(500)).is_none());
}

#[test]
fn vendor_agreement_skips_deleted_and_ended_rows() {
    let mut deleted = agreement(1, "vendor_pricing", "site-a", 300, None);
    deleted.deleted_at = Some(at(310));
    let rows = vec![
        deleted,
        agreement(2, "vendor_pricing", "site-a", 200, Some(400)),
        agreement(3, "vendor_pricing", "site-a", 100, None),
    ];
    assert_eq!(
        find_vendor_agreement(&rows, "vendor_pricing", 12, "site-a", at(350)).unwrap().id,
        2
    );
    assert_eq!(
        find_vendor_agreement(&rows, "vendor_pricing", 12, "site-a", at(400)).unwrap().id,
        3
    );
}

#[test]
fn of_two_agreements_started_together_the_first_is_taken() {
    let rows = vec![
        agreement(1, "vendor_pricing", "site-a", 100, None),
        agreement(2, "vendor_pricing", "site-a", 100, None),
    ];
    assert_eq!(
        find_vendor_agreement(&rows, "vendor_pricing", 12, "site-a", at(100)).unwrap().id,
        1
    );
}

#[test]
fn gas_vendor_agreement_goes_by_the_first_party() {
    let mut other_shop = agreement(2, "gas_vendor_pricing", "x", 300, None);
    other_shop.party_a_id = "shop-2".to_string();
    let rows = vec![
        agreement(1, "gas_vendor_pricing", "x", 100, None),
        other_shop,
        agreement(3, "vendor_pricing", "x", 400, None),
    ];
    assert_eq!(find_gas_vendor_agreement(&rows, 7, "shop-1", at(500)).unwrap().id, 1);
    assert_eq!(find_gas_vendor_agreement(&rows, 7, "shop-2", at(500)).unwrap().id, 2);
    assert!(find_gas_vendor_agreement(&rows, 8, "shop-1", at(500)).is_none());
    assert!(find_gas_vendor_agreement(&rows, 7, "shop-3", at(500)).is_none());
    let query = AgreementQuery::by_gas_buyer(7, "shop-1", at(500));
    assert_eq!(find_agreement(&rows, &query).unwrap().id, 1);
}

#[test]
fn price_with_the_highest_priority_wins_then_the_latest_start() {
    let rows = vec![price(1, 5, 100), price(2, 9, 50), price(3, 9, 80), price(4, 9, 80)];
    assert_eq!(find_global_price(&rows, 500, at(200)).unwrap().id, 3);
    assert_eq!(find_global_price(&rows, 500, at(60)).unwrap().id, 2);
    assert!(find_global_price(&rows, 500, at(10)).is_none());
    assert!(find_global_price(&rows, 501, at(200)).is_none());
}

#[test]
fn price_levels_exclude_each_other() {
    let mut for_agreement = price(1, 0, 100);
    for_agreement.agreement_id = Some(70);
    for_agreement.party_id = Some(60);
    let mut for_party = price(2, 0, 100);
    for_party.party_id = Some(60);
    for_party.organization_id = Some(50);
    let mut for_organization = price(3, 0, 100);
    for_organization.organization_id = Some(50);
    let global = price(4, 0, 100);
    let rows = vec![global, for_organization, for_party, for_agreement];
    assert_eq!(find_price_by_agreement(&rows, 500, 70, at(200)).unwrap().id, 1);
    assert_eq!(find_price_by_party(&rows, 500, 60, at(200)).unwrap().id, 2);
    assert_eq!(find_price_by_organization(&rows, 500, 50, at(200)).unwrap().id, 3);
    assert_eq!(find_global_price(&rows, 500, at(200)).unwrap().id, 4);
    assert!(find_price_by_agreement(&rows, 500, 71, at(200)).is_none());
    assert!(find_price_by_party(&rows, 500, 61, at(200)).is_none());
    assert!(find_price_by_organization(&rows, 500, 51, at(200)).is_none());
}

#[test]
fn price_outside_its_window_is_not_found() {
    let mut ended = price(1, 0, 100);
    ended.valid_to = Some(at(200));
    let rows = vec![ended];
    assert!(find_global_price(&rows, 500, at(199)).is_some());
    assert!(find_global_price(&rows, 500, at(200)).is_none());
    assert!(find_global_price(&rows, 500, at(99)).is_none());
}

#[test]
fn content_type_is_found_by_label_and_model() {
    let rows = vec![
        ContentType { id: 3, app_label: "diveops".to_string(), model: "divesite".to_string() },
        ContentType { id: 9, app_label: "parties".to_string(), model: "organization".to_string() },
    ];
    assert_eq!(get_content_type(&rows, "parties", "organization").unwrap().id, 9);
    assert_eq!(get_content_type_id(&rows, "diveops", "divesite"), Some(3));
    assert_eq!(get_content_type_id(&rows, "diveops", "organization"), None);
    assert!(get_content_type(&[], "a", "b").is_none());
}

#[test]
fn catalog_item_must_be_active_and_not_deleted() {
    let rows = vec![
        CatalogItem { id: 1, display_name: "Tank".to_string(), active: false, deleted_at: None },
        CatalogItem {
            id: 2,
            display_name: "Tank".to_string(),
            active: true,
            deleted_at: Some(at(5)),
        },
        CatalogItem { id: 3, display_name: "Tank".to_string(), active: true, deleted_at: None },
        CatalogItem { id: 4, display_name: "Tank".to_string(), active: true, deleted_at: None },
    ];
    assert_eq!(get_catalog_item_by_name(&rows, "Tank").unwrap().id, 3);
    assert!(get_catalog_item_by_name(&rows, "tank").is_none());
}

#[test]
fn active_vendor_agreements_keep_their_order() {
    let mut deleted = agreement(3, "vendor_pricing", "c", 100, None);
    deleted.deleted_at = Some(at(150));
    let rows = vec![
        agreement(1, "vendor_pricing", "a", 100, None),
        agreement(2, "other_scope", "b", 100, None),
        deleted,
        agreement(4, "gas_vendor_pricing", "d", 100, Some(300)),
        agreement(5, "vendor_pricing", "e", 400, None),
    ];
    let ids: Vec<u128> = get_active_vendor_agreements(&rows, at(200)).iter().map(|a| a.id).collect();
    assert_eq!(ids, vec![1, 4]);
    let ids: Vec<u128> = get_active_vendor_agreements(&rows, at(400)).iter().map(|a| a.id).collect();
    assert_eq!(ids, vec![1, 5]);
}
