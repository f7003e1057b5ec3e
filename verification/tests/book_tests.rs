use flsol::{
    flash_loan_for, initialize, Config, CustomError, FlashRecord, Identity, LoanReceipt, Pool,
    RecordBook,
};

fn config(cooldown_slots: u64) -> Config {
    initialize(
        Identity::new([3u8; 32]),
        Identity::new([1u8; 32]),
        1,
        100,
        Identity::new([2u8; 32]),
        1,
        2,
        10_000,
        cooldown_slots,
        0,
        0,
    )
}

fn caller(tag: u8) -> Identity {
    let mut bytes = [0u8; 32];
    bytes[0] = tag;
    Identity::new(bytes)
}

#[test]
fn a_new_book_holds_no_record() {
    let book = RecordBook::new();
    assert_eq!(book.get(&caller(1)), None);
    assert_eq!(book.get(&caller(2)), None);
}

#[test]
fn first_loan_of_a_caller_passes_the_cooldown_and_makes_the_record() {
    let cfg = config(1_000);
    let mut book = RecordBook::new();
    let mut pool = Pool::new(500, 500);
    assert_eq!(
        flash_loan_for(&cfg, &mut book, &mut pool, &caller(1), 1_000, 5, &Some(vec![1])),
        Ok(LoanReceipt { amount: 1_000, fee: 10, treasury_share: 5, vault_share: 5 })
    );
    assert_eq!(book.get(&caller(1)), Some(FlashRecord { last_flash_slot: 5 }));
    assert_eq!(book.get(&caller(2)), None);
    assert_eq!(pool, Pool { reserve: 505, supply: 500 });
}

#[test]
fn cooldown_is_kept_per_caller() {
    let cfg = config(100);
    let mut book = RecordBook::new();
    let mut pool = Pool::new(500, 500);
    let ok = Some(vec![1]);
    assert!(flash_loan_for(&cfg, &mut book, &mut pool, &caller(1), 200, 1_000, &ok).is_ok());
    assert_eq!(
        flash_loan_for(&cfg, &mut book, &mut pool, &caller(1), 200, 1_100, &ok),
        Err(CustomError::CooldownActive)
    );
    assert!(flash_loan_for(&cfg, &mut book, &mut pool, &caller(2), 200, 1_100, &ok).is_ok());
    assert!(flash_loan_for(&cfg, &mut book, &mut pool, &caller(1), 200, 1_101, &ok).is_ok());
    assert_eq!(book.get(&caller(1)), Some(FlashRecord { last_flash_slot: 1_101 }));
    assert_eq!(book.get(&caller(2)), Some(FlashRecord { last_flash_slot: 1_100 }));
    assert_eq!(pool, Pool { reserve: 503, supply: 500 });
}

#[test]
fn a_failed_loan_leaves_book_and_pool_alone() {
    let cfg = config(100);
    let mut book = RecordBook::new();
    let mut pool = Pool::new(500, 500);
    assert!(
        flash_loan_for(&cfg, &mut book, &mut pool, &caller(1), 200, 1_000, &Some(vec![1])).is_ok()
    );
    let before = pool;
    assert_eq!(
        flash_loan_for(&cfg, &mut book, &mut pool, &caller(1), 200, 5_000, &None),
        Err(CustomError::NoCallback)
    );
    assert_eq!(
        flash_loan_for(&cfg, &mut book, &mut pool, &caller(2), 200, 5_000, &Some(vec![0])),
        Err(CustomError::CallbackFailed)
    );
    assert_eq!(
        flash_loan_for(&cfg, &mut book, &mut pool, &caller(3), 10_001, 5_000, &Some(vec![1])),
        Err(CustomError::LoanTooBig)
    );
    assert_eq!(book.get(&caller(1)), Some(FlashRecord { last_flash_slot: 1_000 }));
    assert_eq!(book.get(&caller(2)), None);
    assert_eq!(book.get(&caller(3)), None);
    assert_eq!(pool, before);
}

#[test]
fn many_callers_keep_their_own_records() {
    let cfg = config(0);
    let mut book = RecordBook::new();
    let mut pool = Pool::new(0, 0);
    let ok = Some(vec![1]);
    for tag in 1..=20u8 {
        assert!(flash_loan_for(&cfg, &mut book, &mut pool, &caller(tag), 100, tag as u64, &ok)
            .is_ok());
    }
    for tag in (1..=20u8).step_by(2) {
        assert!(flash_loan_for(
            &cfg,
            &mut book,
            &mut pool,
            &caller(tag),
            100,
            1_000 + tag as u64,
            &ok
        )
        .is_ok());
    }
    for tag in 1..=20u8 {
        let expected = if tag % 2 == 1 { 1_000 + tag as u64 } else { tag as u64 };
        assert_eq!(book.get(&caller(tag)), Some(FlashRecord { last_flash_slot: expected }));
    }
    assert_eq!(book.get(&caller(21)), None);
    assert_eq!(pool, Pool { reserve: 30, supply: 0 });
}
