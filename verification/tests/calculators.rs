use happydiving_web::pricing::amount::Amount;
use happydiving_web::pricing::calculators::{
    allocate_from_quotient, allocate_shared_costs, calculate_totals,
    checked_allocate_shared_costs, checked_calculate_totals, round_money, totals_from_quotients,
    EquipmentRentalInput, PricingLineInput,
};

fn dec(text: &str) -> Amount {
    Amount::parse(text).unwrap()
}

fn total_of(amounts: &[happydiving_web::pricing::responses::MoneyResponse]) -> Amount {
    let mut total = Amount::zero();
    for share in amounts {
        total = total.checked_add(&share.amount).unwrap();
    }
    total
}

fn line(key: &str, allocation: &str, cost: &str, charge: &str) -> PricingLineInput {
    PricingLineInput {
        key: key.to_string(),
        allocation: allocation.to_string(),
        shop_cost_amount: dec(cost),
        customer_charge_amount: dec(charge),
    }
}

// ==================== round_money ====================

#[test]
fn test_round_money_bankers_rounding_to_even() {
    assert_eq!(round_money(dec("2.5"), 0), dec("2"));
    assert_eq!(round_money(dec("3.5"), 0), dec("4"));
    assert_eq!(round_money(dec("4.5"), 0), dec("4"));
    assert_eq!(round_money(dec("5.5"), 0), dec("6"));
}

#[test]
fn test_round_money_bankers_rounding_decimal_places() {
    assert_eq!(round_money(dec("2.25"), 1), dec("2.2"));
    assert_eq!(round_money(dec("2.35"), 1), dec("2.4"));
    assert_eq!(round_money(dec("2.45"), 1), dec("2.4"));
    assert_eq!(round_money(dec("2.55"), 1), dec("2.6"));
}

#[test]
fn test_round_money_normal_rounding() {
    assert_eq!(round_money(dec("1.234"), 2), dec("1.23"));
    assert_eq!(round_money(dec("1.236"), 2), dec("1.24"));
    assert_eq!(round_money(dec("1.2349"), 2), dec("1.23"));
    assert_eq!(round_money(dec("1.2351"), 2), dec("1.24"));
}

#[test]
fn test_round_money_zero() {
    assert_eq!(round_money(dec("0"), 2), dec("0"));
    assert_eq!(round_money(dec("0.00"), 2), dec("0.00"));
}

#[test]
fn test_round_money_negative() {
    assert_eq!(round_money(dec("-2.5"), 0), dec("-2"));
    assert_eq!(round_money(dec("-3.5"), 0), dec("-4"));
    assert_eq!(round_money(dec("-1.234"), 2), dec("-1.23"));
}

#[test]
fn test_round_money_large_values() {
    assert_eq!(round_money(dec("123456.789"), 2), dec("123456.79"));
    assert_eq!(round_money(dec("999999.995"), 2), dec("1000000.00"));
}

#[test]
fn round_money_writes_the_result_at_the_target_scale() {
    let rounded = round_money(dec("2.5"), 0);
    assert_eq!((rounded.mantissa(), rounded.scale()), (2, 0));
    let rounded = round_money(dec("999999.995"), 2);
    assert_eq!((rounded.mantissa(), rounded.scale()), (100000000, 2));
    let kept = round_money(dec("1.5"), 2);
    assert_eq!((kept.mantissa(), kept.scale()), (15, 1));
}

// ==================== allocate_shared_costs ====================

#[test]
fn test_allocate_shared_costs_even_split() {
    let result = allocate_shared_costs(dec("100"), 4, "MXN");
    assert_eq!(result.per_diver.amount, dec("25"));
    assert_eq!(result.amounts.len(), 4);
    for amount in &result.amounts {
        assert_eq!(amount.amount, dec("25"));
        assert_eq!(amount.currency, "MXN");
    }
}

#[test]
fn test_allocate_shared_costs_with_remainder() {
    let result = allocate_shared_costs(dec("100"), 3, "MXN");
    assert_eq!(result.per_diver.amount, dec("33.33"));

    let total = total_of(&result.amounts);
    assert_eq!(total, dec("100"));

    assert_eq!(result.amounts[0].amount, dec("33.34"));
    assert_eq!(result.amounts[1].amount, dec("33.33"));
    assert_eq!(result.amounts[2].amount, dec("33.33"));
}

#[test]
fn test_allocate_shared_costs_zero_divers() {
    let result = allocate_shared_costs(dec("100"), 0, "MXN");
    assert_eq!(result.per_diver.amount, dec("0"));
    assert!(result.amounts.is_empty());
}

#[test]
fn test_allocate_shared_costs_negative_divers() {
    let result = allocate_shared_costs(dec("100"), -1, "MXN");
    assert_eq!(result.per_diver.amount, dec("0"));
    assert!(result.amounts.is_empty());
}

#[test]
fn test_allocate_shared_costs_single_diver() {
    let result = allocate_shared_costs(dec("100"), 1, "MXN");
    assert_eq!(result.per_diver.amount, dec("100"));
    assert_eq!(result.amounts.len(), 1);
    assert_eq!(result.amounts[0].amount, dec("100"));
}

#[test]
fn test_allocate_shared_costs_large_remainder() {
    // 100 / 7 = 14.285714... rounds to 14.29
    // 14.29 * 7 = 100.03, so the remainder is -0.03
    let result = allocate_shared_costs(dec("100"), 7, "MXN");

    let total = total_of(&result.amounts);
    assert_eq!(total, dec("100"));
}

#[test]
fn allocation_takes_overshoot_from_the_first_shares() {
    let result = allocate_shared_costs(dec("100"), 7, "USD");
    assert_eq!(result.per_diver.amount, dec("14.29"));
    let shares: Vec<Amount> = result.amounts.iter().map(|m| m.amount).collect();
    assert_eq!(
        shares,
        vec![
            dec("14.28"),
            dec("14.28"),
            dec("14.28"),
            dec("14.29"),
            dec("14.29"),
            dec("14.29"),
            dec("14.29")
        ]
    );
    assert_eq!(result.per_diver.currency, "USD");
    assert!(result.amounts.iter().all(|m| m.currency == "USD"));
}

#[test]
fn allocation_of_a_negative_total() {
    let result = allocate_shared_costs(dec("-100"), 3, "MXN");
    assert_eq!(result.per_diver.amount, dec("-33.33"));
    assert_eq!(result.amounts[0].amount, dec("-33.34"));
    assert_eq!(result.amounts[1].amount, dec("-33.33"));
    assert_eq!(result.amounts[2].amount, dec("-33.33"));
    assert_eq!(total_of(&result.amounts), dec("-100"));
}

#[test]
fn allocation_sums_to_the_total_for_many_totals() {
    let mut seed: u64 = 99;
    for _ in 0..3000 {
        seed = seed.wrapping_mul(6364136223846793005).wrapping_add(1442695040888963407);
        let cents = ((seed >> 20) % 2_000_000_000) as i64 - 1_000_000_000;
        let divers = ((seed >> 7) % 60) as i32 + 1;
        let total = Amount::new(cents, 2);
        let result = checked_allocate_shared_costs(total, divers, "MXN").unwrap();
        assert_eq!(result.amounts.len(), divers as usize);
        assert_eq!(total_of(&result.amounts), total, "{} cents among {}", cents, divers);
    }
}

#[test]
fn allocation_of_a_fraction_of_a_hundredth_keeps_the_base_shares() {
    // 0.005 split once rounds to 0.00; the remainder holds no whole hundredth.
    let result = allocate_shared_costs(dec("0.005"), 1, "MXN");
    assert_eq!(result.per_diver.amount, dec("0.00"));
    assert_eq!(result.amounts.len(), 1);
    assert_eq!(result.amounts[0].amount, dec("0"));
}

#[test]
fn checked_allocation_matches_the_plain_one() {
    let checked = checked_allocate_shared_costs(dec("100"), 3, "MXN").unwrap();
    assert_eq!(checked.per_diver.amount, dec("33.33"));
    assert_eq!(checked.amounts[0].amount, dec("33.34"));
    let none = checked_allocate_shared_costs(dec("100"), 0, "MXN").unwrap();
    assert!(none.amounts.is_empty());
    assert_eq!(none.per_diver.amount, dec("0"));
}

// ==================== calculate_totals ====================

#[test]
fn test_calculate_totals_shared_only() {
    let lines = vec![line("boat", "shared", "1000", "1200")];

    let totals = calculate_totals(&lines, 4, "MXN", None);

    assert_eq!(totals.shared_cost.amount, dec("1000"));
    assert_eq!(totals.shared_charge.amount, dec("1200"));
    assert_eq!(totals.shared_cost_per_diver.amount, dec("250"));
    assert_eq!(totals.shared_charge_per_diver.amount, dec("300"));
    assert_eq!(totals.per_diver_cost.amount, dec("0"));
    assert_eq!(totals.per_diver_charge.amount, dec("0"));
    assert_eq!(totals.total_cost_per_diver.amount, dec("250"));
    assert_eq!(totals.total_charge_per_diver.amount, dec("300"));
    assert_eq!(totals.margin_per_diver.amount, dec("50"));
}

#[test]
fn test_calculate_totals_per_diver_only() {
    let lines = vec![line("gas", "per_diver", "50", "0")];

    let totals = calculate_totals(&lines, 4, "MXN", None);

    assert_eq!(totals.shared_cost.amount, dec("0"));
    assert_eq!(totals.per_diver_cost.amount, dec("50"));
    assert_eq!(totals.total_cost_per_diver.amount, dec("50"));
    assert_eq!(totals.margin_per_diver.amount, dec("-50"));
}

#[test]
fn test_calculate_totals_mixed() {
    let lines = vec![
        line("boat", "shared", "1000", "1200"),
        line("gas", "per_diver", "50", "0"),
    ];

    let totals = calculate_totals(&lines, 4, "MXN", None);

    assert_eq!(totals.shared_cost.amount, dec("1000"));
    assert_eq!(totals.shared_cost_per_diver.amount, dec("250"));
    assert_eq!(totals.per_diver_cost.amount, dec("50"));
    assert_eq!(totals.total_cost_per_diver.amount, dec("300"));
    assert_eq!(totals.total_charge_per_diver.amount, dec("300"));
}

#[test]
fn test_calculate_totals_with_equipment() {
    let lines = vec![line("boat", "shared", "1000", "1200")];

    let rentals = vec![EquipmentRentalInput {
        unit_cost_amount: dec("10"),
        unit_charge_amount: dec("25"),
        quantity: 2,
    }];

    let totals = calculate_totals(&lines, 4, "MXN", Some(&rentals));

    assert_eq!(totals.per_diver_cost.amount, dec("20"));
    assert_eq!(totals.per_diver_charge.amount, dec("50"));
    assert_eq!(totals.total_cost_per_diver.amount, dec("270"));
    assert_eq!(totals.total_charge_per_diver.amount, dec("350"));
}

#[test]
fn test_calculate_totals_zero_divers() {
    let lines = vec![line("boat", "shared", "1000", "1200")];

    let totals = calculate_totals(&lines, 0, "MXN", None);

    assert_eq!(totals.shared_cost_per_diver.amount, dec("0"));
    assert_eq!(totals.shared_charge_per_diver.amount, dec("0"));
    assert_eq!(totals.diver_count, 0);
}

#[test]
fn totals_pass_over_lines_with_an_unknown_tag() {
    let lines = vec![
        line("boat", "shared", "900", "1000"),
        line("tip", "optional", "5", "5"),
        line("park", "per_diver", "3.50", "4.25"),
    ];
    let totals = calculate_totals(&lines, 3, "USD", None);
    assert_eq!(totals.shared_cost.amount, dec("900"));
    assert_eq!(totals.shared_charge.amount, dec("1000"));
    assert_eq!(totals.per_diver_cost.amount, dec("3.50"));
    assert_eq!(totals.per_diver_charge.amount, dec("4.25"));
    assert_eq!(totals.shared_cost_per_diver.amount, dec("300"));
    assert_eq!(totals.shared_charge_per_diver.amount, dec("333.33"));
    assert_eq!(totals.total_cost_per_diver.amount, dec("303.50"));
    assert_eq!(totals.total_charge_per_diver.amount, dec("337.58"));
    assert_eq!(totals.margin_per_diver.amount, dec("34.08"));
    assert_eq!(totals.diver_count, 3);
    assert_eq!(totals.margin_per_diver.currency, "USD");
    assert_eq!(totals.shared_cost.currency, "USD");
}

#[test]
fn totals_of_nothing_are_all_zero() {
    let totals = calculate_totals(&[], -2, "MXN", Some(&[]));
    for amount in [
        &totals.shared_cost,
        &totals.shared_charge,
        &totals.per_diver_cost,
        &totals.per_diver_charge,
        &totals.shared_cost_per_diver,
        &totals.shared_charge_per_diver,
        &totals.total_cost_per_diver,
        &totals.total_charge_per_diver,
        &totals.margin_per_diver,
    ] {
        assert_eq!(amount.amount, dec("0"));
        assert_eq!(amount.currency, "MXN");
    }
    assert_eq!(totals.diver_count, -2);
}

#[test]
fn checked_totals_refuse_sums_out_of_range() {
    let largest = Amount::from_parts((1i128 << 96) - 1, 0).unwrap();
    let lines = vec![
        PricingLineInput {
            key: "a".to_string(),
            allocation: "shared".to_string(),
            shop_cost_amount: largest,
            customer_charge_amount: dec("1"),
        },
        line("b", "shared", "1", "1"),
    ];
    assert!(checked_calculate_totals(&lines, 2, "MXN", None).is_none());
    let fine = vec![line("b", "shared", "1", "1")];
    let totals = checked_calculate_totals(&fine, 2, "MXN", None).unwrap();
    assert_eq!(totals.shared_cost_per_diver.amount, dec("0.50"));
}

#[test]
fn allocation_from_a_quotient_rounds_it_and_hands_out_the_remainder() {
    let result = allocate_from_quotient(dec("100"), dec("33.3333"), 3, "MXN").unwrap();
    assert_eq!(result.per_diver.amount, dec("33.33"));
    let shares: Vec<Amount> = result.amounts.iter().map(|m| m.amount).collect();
    assert_eq!(shares, vec![dec("33.34"), dec("33.33"), dec("33.33")]);
    assert!(result.amounts.iter().all(|m| m.currency == "MXN"));

    // A quotient that is too high by far: every share gives a hundredth back,
    // and no share gives more than one.
    let result = allocate_from_quotient(dec("100"), dec("40"), 3, "USD").unwrap();
    assert_eq!(result.per_diver.amount, dec("40"));
    let shares: Vec<Amount> = result.amounts.iter().map(|m| m.amount).collect();
    assert_eq!(shares, vec![dec("39.99"), dec("39.99"), dec("39.99")]);

    // A quotient that is exact leaves nothing to hand out.
    let result = allocate_from_quotient(dec("100"), dec("25"), 4, "MXN").unwrap();
    let shares: Vec<Amount> = result.amounts.iter().map(|m| m.amount).collect();
    assert_eq!(shares, vec![dec("25"); 4]);
}

#[test]
fn allocation_from_a_quotient_refuses_amounts_out_of_range() {
    let largest = Amount::from_parts((1i128 << 96) - 1, 0).unwrap();
    assert!(allocate_from_quotient(dec("1"), largest, 2, "MXN").is_none());
    assert!(allocate_from_quotient(largest, dec("-1"), 1, "MXN").is_none());
    assert!(allocate_from_quotient(largest, largest, 1, "MXN").is_some());
}

#[test]
fn totals_from_quotients_round_the_shares() {
    let lines = vec![
        line("boat", "shared", "1000", "1200"),
        line("gas", "per_diver", "50", "0"),
    ];
    let rentals = vec![EquipmentRentalInput {
        unit_cost_amount: dec("10"),
        unit_charge_amount: dec("25"),
        quantity: 2,
    }];
    let totals =
        totals_from_quotients(&lines, 3, "MXN", Some(&rentals), dec("333.335"), dec("400.0049"))
            .unwrap();
    assert_eq!(totals.shared_cost.amount, dec("1000"));
    assert_eq!(totals.shared_charge.amount, dec("1200"));
    assert_eq!(totals.per_diver_cost.amount, dec("70"));
    assert_eq!(totals.per_diver_charge.amount, dec("50"));
    assert_eq!(totals.shared_cost_per_diver.amount, dec("333.34"));
    assert_eq!(totals.shared_charge_per_diver.amount, dec("400.00"));
    assert_eq!(totals.total_cost_per_diver.amount, dec("403.34"));
    assert_eq!(totals.total_charge_per_diver.amount, dec("450"));
    assert_eq!(totals.margin_per_diver.amount, dec("46.66"));
    assert_eq!(totals.diver_count, 3);
    assert_eq!(totals.margin_per_diver.currency, "MXN");

    let largest = Amount::from_parts((1i128 << 96) - 1, 0).unwrap();
    assert!(totals_from_quotients(&lines, 3, "MXN", None, largest, dec("1")).is_none());
}
