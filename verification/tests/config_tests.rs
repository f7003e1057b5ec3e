use flsol::{
    add_fee_tier, clear_fee_tiers, initialize, set_pause, update_fees, Config, CustomError,
    ErrorClass, FeeTier, Identity,
};

fn authority() -> Identity {
    Identity::new([7u8; 32])
}

fn stranger() -> Identity {
    let mut bytes = [7u8; 32];
    bytes[31] = 8;
    Identity::new(bytes)
}

fn fresh() -> Config {
    initialize(
        authority(),
        Identity::new([1u8; 32]),
        3,
        1_000,
        Identity::new([2u8; 32]),
        1,
        4,
        1_000_000,
        10,
        254,
        253,
    )
}

#[test]
fn initialize_sets_every_field() {
    let cfg = fresh();
    assert_eq!(cfg.authority, authority());
    assert_eq!(cfg.fsol_mint, Identity::new([1u8; 32]));
    assert_eq!(cfg.fee_numerator, 3);
    assert_eq!(cfg.fee_denominator, 1_000);
    assert_eq!(cfg.treasury, Identity::new([2u8; 32]));
    assert_eq!(cfg.treasury_fee_numerator, 1);
    assert_eq!(cfg.treasury_fee_denominator, 4);
    assert_eq!(cfg.max_flash_loan_amount, 1_000_000);
    assert_eq!(cfg.cooldown_slots, 10);
    assert!(!cfg.paused);
    assert!(cfg.fee_tiers.is_empty());
    assert_eq!(cfg.bump, 254);
    assert_eq!(cfg.vault_bump, 253);
}

#[test]
fn identities_compare_by_all_their_bytes() {
    assert!(authority().same(&authority()));
    assert!(!authority().same(&stranger()));
    assert_eq!(authority(), Identity { bytes: [7u8; 32] });
    assert_ne!(authority(), stranger());
    let mut first = [0u8; 32];
    first[0] = 1;
    assert_ne!(Identity::new(first), Identity::new([0u8; 32]));
}

#[test]
fn update_fees_replaces_the_base_rate() {
    let mut cfg = fresh();
    assert_eq!(update_fees(&mut cfg, &authority(), 5, 10_000), Ok(()));
    let mut expected = fresh();
    expected.fee_numerator = 5;
    expected.fee_denominator = 10_000;
    assert_eq!(cfg, expected);
}

#[test]
fn update_fees_accepts_a_zero_denominator() {
    let mut cfg = fresh();
    assert_eq!(update_fees(&mut cfg, &authority(), 1, 0), Ok(()));
    assert_eq!(cfg.fee_denominator, 0);
}

#[test]
fn update_fees_by_a_stranger_is_refused() {
    let mut cfg = fresh();
    assert_eq!(update_fees(&mut cfg, &stranger(), 5, 10_000), Err(CustomError::Unauthorized));
    assert_eq!(cfg, fresh());
}

#[test]
fn set_pause_toggles_the_flag() {
    let mut cfg = fresh();
    assert_eq!(set_pause(&mut cfg, &authority(), true), Ok(()));
    assert!(cfg.paused);
    let mut expected = fresh();
    expected.paused = true;
    assert_eq!(cfg, expected);
    assert_eq!(set_pause(&mut cfg, &authority(), false), Ok(()));
    assert_eq!(cfg, fresh());
}

#[test]
fn set_pause_by_a_stranger_is_refused() {
    let mut cfg = fresh();
    assert_eq!(set_pause(&mut cfg, &stranger(), true), Err(CustomError::Unauthorized));
    assert_eq!(cfg, fresh());
}

#[test]
fn add_fee_tier_appends_in_order() {
    let mut cfg = fresh();
    assert_eq!(add_fee_tier(&mut cfg, &authority(), 100, 1, 100), Ok(()));
    assert_eq!(add_fee_tier(&mut cfg, &authority(), 500, 2, 100), Ok(()));
    assert_eq!(add_fee_tier(&mut cfg, &authority(), 50, 9, 10), Ok(()));
    assert_eq!(
        cfg.fee_tiers,
        vec![
            FeeTier { threshold: 100, numerator: 1, denominator: 100 },
            FeeTier { threshold: 500, numerator: 2, denominator: 100 },
            FeeTier { threshold: 50, numerator: 9, denominator: 10 },
        ]
    );
    let mut expected = fresh();
    expected.fee_tiers = cfg.fee_tiers.clone();
    assert_eq!(cfg, expected);
}

#[test]
fn add_fee_tier_by_a_stranger_is_refused() {
    let mut cfg = fresh();
    assert_eq!(add_fee_tier(&mut cfg, &authority(), 100, 1, 100), Ok(()));
    let before = cfg.clone();
    assert_eq!(add_fee_tier(&mut cfg, &stranger(), 500, 2, 100), Err(CustomError::Unauthorized));
    assert_eq!(cfg, before);
}

#[test]
fn clear_fee_tiers_removes_them_all() {
    let mut cfg = fresh();
    assert_eq!(add_fee_tier(&mut cfg, &authority(), 100, 1, 100), Ok(()));
    assert_eq!(add_fee_tier(&mut cfg, &authority(), 500, 2, 100), Ok(()));
    assert_eq!(clear_fee_tiers(&mut cfg, &authority()), Ok(()));
    assert_eq!(cfg, fresh());
    assert_eq!(clear_fee_tiers(&mut cfg, &authority()), Ok(()));
    assert_eq!(cfg, fresh());
}

#[test]
fn clear_fee_tiers_by_a_stranger_is_refused() {
    let mut cfg = fresh();
    assert_eq!(add_fee_tier(&mut cfg, &authority(), 100, 1, 100), Ok(()));
    let before = cfg.clone();
    assert_eq!(clear_fee_tiers(&mut cfg, &stranger()), Err(CustomError::Unauthorized));
    assert_eq!(cfg, before);
    assert_eq!(cfg.fee_tiers.len(), 1);
}

#[test]
fn the_authority_is_never_reassigned() {
    let mut cfg = fresh();
    update_fees(&mut cfg, &authority(), 1, 2).unwrap();
    set_pause(&mut cfg, &authority(), true).unwrap();
    add_fee_tier(&mut cfg, &authority(), 1, 1, 1).unwrap();
    clear_fee_tiers(&mut cfg, &authority()).unwrap();
    assert_eq!(cfg.authority, authority());
}

#[test]
fn errors_fall_into_their_classes() {
    assert_eq!(CustomError::Unauthorized.class(), ErrorClass::Authorization);
    assert_eq!(CustomError::Paused.class(), ErrorClass::PolicyGuard);
    assert_eq!(CustomError::LoanTooBig.class(), ErrorClass::PolicyGuard);
    assert_eq!(CustomError::CooldownActive.class(), ErrorClass::PolicyGuard);
    assert_eq!(CustomError::ZeroSupply.class(), ErrorClass::ProtocolInvariant);
    assert_eq!(CustomError::NothingToHarvest.class(), ErrorClass::ProtocolInvariant);
    assert_eq!(CustomError::NoCallback.class(), ErrorClass::CallbackContract);
    assert_eq!(CustomError::CallbackFailed.class(), ErrorClass::CallbackContract);
    assert_eq!(CustomError::ArithmeticOverflow.class(), ErrorClass::ArithmeticOverflow);
}
