use flsol::{
    add_fee_tier, flash_fee, initialize, select_tier, split_fee, update_fees, Config, CustomError,
    FeeSplit, FeeTier, Identity,
};

fn admin() -> Identity {
    Identity::new([9u8; 32])
}

fn config(fee: (u64, u64), treasury: (u64, u64)) -> Config {
    initialize(
        admin(),
        Identity::new([1u8; 32]),
        fee.0,
        fee.1,
        Identity::new([2u8; 32]),
        treasury.0,
        treasury.1,
        u64::MAX,
        0,
        0,
        0,
    )
}

fn with_tiers(tiers: &[(u64, u64, u64)]) -> Config {
    let mut cfg = config((3, 1_000), (1, 2));
    for (threshold, numerator, denominator) in tiers {
        add_fee_tier(&mut cfg, &admin(), *threshold, *numerator, *denominator).unwrap();
    }
    cfg
}

#[test]
fn fee_tier_tie_break_takes_the_tier_added_last() {
    let cfg = with_tiers(&[(100, 1, 100), (500, 2, 100)]);
    assert_eq!(flash_fee(&cfg, 600), Ok(12));
}

#[test]
fn base_fee_applies_without_tiers() {
    let cfg = config((3, 1_000), (1, 2));
    assert_eq!(flash_fee(&cfg, 600), Ok(1));
    assert_eq!(flash_fee(&cfg, 1_000_000), Ok(3_000));
    assert_eq!(flash_fee(&cfg, 333), Ok(0));
    assert_eq!(flash_fee(&cfg, 0), Ok(0));
}

#[test]
fn base_fee_applies_below_every_threshold() {
    let cfg = with_tiers(&[(100, 1, 100), (500, 2, 100)]);
    assert_eq!(flash_fee(&cfg, 99), Ok(0));
    let cfg = with_tiers(&[(10_000, 1, 2)]);
    assert_eq!(flash_fee(&cfg, 9_999), Ok(29));
}

#[test]
fn lower_tier_applies_between_the_thresholds() {
    let cfg = with_tiers(&[(100, 1, 100), (500, 2, 100)]);
    assert_eq!(flash_fee(&cfg, 499), Ok(4));
    assert_eq!(flash_fee(&cfg, 100), Ok(1));
    assert_eq!(flash_fee(&cfg, 500), Ok(10));
}

#[test]
fn last_added_tier_wins_over_a_higher_threshold() {
    let cfg = with_tiers(&[(500, 2, 100), (100, 1, 100)]);
    assert_eq!(flash_fee(&cfg, 600), Ok(6));
    assert_eq!(
        select_tier(&cfg.fee_tiers, 600),
        Some(FeeTier { threshold: 100, numerator: 1, denominator: 100 })
    );
}

#[test]
fn select_tier_scans_from_the_end() {
    let tiers = vec![
        FeeTier { threshold: 100, numerator: 1, denominator: 100 },
        FeeTier { threshold: 500, numerator: 2, denominator: 100 },
        FeeTier { threshold: 1_000, numerator: 3, denominator: 100 },
    ];
    assert_eq!(select_tier(&tiers, 99), None);
    assert_eq!(select_tier(&tiers, 100), Some(tiers[0]));
    assert_eq!(select_tier(&tiers, 999), Some(tiers[1]));
    assert_eq!(select_tier(&tiers, u64::MAX), Some(tiers[2]));
    assert_eq!(select_tier(&Vec::new(), 5), None);
}

#[test]
fn fee_fails_when_the_base_product_overflows() {
    let cfg = config((3, 1_000), (1, 2));
    assert_eq!(flash_fee(&cfg, u64::MAX / 3), Ok(18_446_744_073_709_551));
    assert_eq!(flash_fee(&cfg, u64::MAX / 3 + 1), Err(CustomError::ArithmeticOverflow));
}

#[test]
fn fee_fails_on_base_overflow_even_when_a_tier_qualifies() {
    let mut cfg = config((3, 1_000), (1, 2));
    add_fee_tier(&mut cfg, &admin(), 100, 1, 100).unwrap();
    assert_eq!(flash_fee(&cfg, u64::MAX), Err(CustomError::ArithmeticOverflow));
    assert_eq!(flash_fee(&cfg, u64::MAX / 3), Ok(61_489_146_912_365_172));
}

#[test]
fn fee_fails_when_the_tier_product_overflows() {
    let cfg = with_tiers(&[(100, 1 << 40, 1 << 41)]);
    assert_eq!(flash_fee(&cfg, 1 << 24), Err(CustomError::ArithmeticOverflow));
    assert_eq!(flash_fee(&cfg, (1 << 24) - 1), Ok(((1 << 24) - 1) / 2));
}

#[test]
fn fee_fails_on_a_zero_denominator() {
    let mut cfg = config((3, 1_000), (1, 2));
    update_fees(&mut cfg, &admin(), 3, 0).unwrap();
    assert_eq!(flash_fee(&cfg, 600), Err(CustomError::ArithmeticOverflow));

    let cfg = with_tiers(&[(100, 1, 0)]);
    assert_eq!(flash_fee(&cfg, 99), Ok(0));
    assert_eq!(flash_fee(&cfg, 100), Err(CustomError::ArithmeticOverflow));
}

#[test]
fn split_gives_the_treasury_its_fraction_rounded_down() {
    let cfg = config((3, 1_000), (1, 2));
    assert_eq!(split_fee(&cfg, 12), Ok(FeeSplit { treasury_share: 6, vault_share: 6 }));
    assert_eq!(split_fee(&cfg, 13), Ok(FeeSplit { treasury_share: 6, vault_share: 7 }));
    assert_eq!(split_fee(&cfg, 1), Ok(FeeSplit { treasury_share: 0, vault_share: 1 }));
    assert_eq!(split_fee(&cfg, 0), Ok(FeeSplit { treasury_share: 0, vault_share: 0 }));
    let cfg = config((3, 1_000), (1, 3));
    assert_eq!(split_fee(&cfg, 100), Ok(FeeSplit { treasury_share: 33, vault_share: 67 }));
}

#[test]
fn split_may_give_all_or_nothing_to_the_treasury() {
    let cfg = config((3, 1_000), (0, 1));
    assert_eq!(split_fee(&cfg, 50), Ok(FeeSplit { treasury_share: 0, vault_share: 50 }));
    let cfg = config((3, 1_000), (1, 1));
    assert_eq!(split_fee(&cfg, 50), Ok(FeeSplit { treasury_share: 50, vault_share: 0 }));
}

#[test]
fn split_fails_when_the_treasury_would_get_more_than_the_fee() {
    let cfg = config((3, 1_000), (3, 2));
    assert_eq!(split_fee(&cfg, 10), Err(CustomError::ArithmeticOverflow));
    assert_eq!(split_fee(&cfg, 1), Ok(FeeSplit { treasury_share: 1, vault_share: 0 }));
}

#[test]
fn split_fails_on_overflow_and_on_a_zero_denominator() {
    let cfg = config((3, 1_000), (2, 4));
    assert_eq!(split_fee(&cfg, u64::MAX), Err(CustomError::ArithmeticOverflow));
    let cfg = config((3, 1_000), (1, 0));
    assert_eq!(split_fee(&cfg, 10), Err(CustomError::ArithmeticOverflow));
}
