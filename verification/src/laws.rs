//! What holds of the engine as a whole, proved from the operations'
//! specifications.

use vstd::prelude::*;
use crate::config::{ConfigView, FeeTier};
use crate::error::CustomError;
use crate::ledger::transfer_of;
use crate::fees::{fee_split, loan_fee, qualifying_tier, FeeSplit};
use crate::loan::{
    aborted, callback_verdict, flash_loan_outcome, loan_terms, pool_after_loan, signal_view,
    transition,
    LoanActionView, LoanEvent, LoanReceipt, LoanState, LoanTerms, Parties,
};
use crate::math::lemma_whole_ratio_is_identity;
use crate::pool::{claim_value, harvested, staked, unstaked, Pool};
use crate::record::FlashRecord;

verus! {

/// A deposit adds exactly its amount to the claim-token supply and to the
/// reserve.
pub proof fn law_deposit_adds_exactly(pool: Pool, amount: u64)
    requires
        staked(pool, amount) is Ok,
    ensures
        staked(pool, amount).unwrap().supply == pool.supply + amount,
        staked(pool, amount).unwrap().reserve == pool.reserve + amount,
{
}

/// A withdrawal of no more than the supply never fails and never pays more
/// than the reserve holds; it pays the share rounded down, which may be
/// nothing.
pub proof fn law_withdrawal_never_overpays(pool: Pool, amount: u64)
    requires
        pool.supply > 0,
        amount <= pool.supply,
    ensures
        unstaked(pool, amount) is Ok,
        unstaked(pool, amount).unwrap().0 == (pool.reserve * amount) / (pool.supply as int),
        unstaked(pool, amount).unwrap().0 <= pool.reserve,
{
    crate::math::lemma_scaled_part_bounded(
        pool.reserve as int,
        amount as int,
        pool.supply as int,
    );
}

/// A withdrawal never lowers the price of a claim token: what rounding down
/// withholds stays with those who remain. Stated without division, reserve
/// over supply afterwards is at least reserve over supply before.
pub proof fn law_withdrawal_never_lowers_price(pool: Pool, amount: u64)
    requires
        unstaked(pool, amount) is Ok,
    ensures
        unstaked(pool, amount).unwrap().1.reserve * pool.supply >= pool.reserve * unstaked(
            pool,
            amount,
        ).unwrap().1.supply,
{
    let reserve = pool.reserve as int;
    let supply = pool.supply as int;
    let burned = amount as int;
    let paid = (reserve * burned) / supply;
    vstd::arithmetic::div_mod::lemma_fundamental_div_mod(reserve * burned, supply);
    vstd::arithmetic::div_mod::lemma_mod_bound(reserve * burned, supply);
    assert(supply * paid <= reserve * burned);
    assert((reserve - paid) * supply >= reserve * (supply - burned)) by (nonlinear_arith)
        requires
            supply * paid <= reserve * burned,
    ;
}

/// A completed flash loan leaves the claim-token supply as it was and the
/// reserve richer by the fee less the treasury's share.
pub proof fn law_flash_loan_conserves(
    cfg: ConfigView,
    record: Option<FlashRecord>,
    pool: Pool,
    amount: u64,
    now: u64,
    data: Option<Seq<u8>>,
)
    requires
        flash_loan_outcome(cfg, record, pool, amount, now, data) is Ok,
    ensures
        ({
            let receipt = flash_loan_outcome(cfg, record, pool, amount, now, data).unwrap();
            let after = pool_after_loan(pool, receipt);
            &&& after.supply == pool.supply
            &&& after.reserve == pool.reserve + (receipt.fee - receipt.treasury_share)
        }),
{
}

/// A completed flash loan never lowers the price of a claim token. Stated
/// without division, reserve over supply afterwards is at least reserve
/// over supply before.
pub proof fn law_loan_never_lowers_price(
    cfg: ConfigView,
    record: Option<FlashRecord>,
    pool: Pool,
    amount: u64,
    now: u64,
    data: Option<Seq<u8>>,
)
    requires
        flash_loan_outcome(cfg, record, pool, amount, now, data) is Ok,
    ensures
        ({
            let receipt = flash_loan_outcome(cfg, record, pool, amount, now, data).unwrap();
            let after = pool_after_loan(pool, receipt);
            after.reserve * pool.supply >= pool.reserve * after.supply
        }),
{
    let receipt = flash_loan_outcome(cfg, record, pool, amount, now, data).unwrap();
    let after = pool_after_loan(pool, receipt);
    assert(after.reserve * pool.supply >= pool.reserve * pool.supply) by (nonlinear_arith)
        requires
            after.reserve >= pool.reserve,
            pool.supply >= 0,
    ;
}

/// In a pool that stands at par, reserve equal to supply, of which the empty
/// pool is one, a deposit that is withdrawn again at once comes back whole
/// and leaves the pool as it was.
pub proof fn law_round_trip_at_par(pool: Pool, amount: u64)
    requires
        pool.reserve == pool.supply,
        amount > 0,
        staked(pool, amount) is Ok,
    ensures
        unstaked(staked(pool, amount).unwrap(), amount) == Ok::<(u64, Pool), CustomError>(
            (amount, pool),
        ),
{
    let after = staked(pool, amount).unwrap();
    lemma_whole_ratio_is_identity(amount as int, after.supply as int);
    assert(after.reserve * amount == amount * after.supply) by (nonlinear_arith)
        requires
            after.reserve == after.supply,
    ;
}

/// A harvest leaves the claim tokens alone, so with the reserve and the
/// supply as they were it pays the same again.
pub proof fn law_harvest_keeps_supply(pool: Pool, amount: u64)
    requires
        harvested(pool, amount) is Ok,
    ensures
        harvested(pool, amount).unwrap().1.supply == pool.supply,
        harvested(pool, amount).unwrap().0 > 0,
        harvested(pool, amount).unwrap().0 + amount == (pool.reserve * amount) / (
        pool.supply as int),
{
}

/// The receipt of a completed flash loan accounts for the fee: the fee is
/// the one that the fee rules give for the principal, the treasury's share
/// is its fraction of the fee rounded down, and the reserve's share is the
/// rest, for which the reserve has room.
pub proof fn law_receipt_accounts_for_fee(
    cfg: ConfigView,
    record: Option<FlashRecord>,
    pool: Pool,
    amount: u64,
    now: u64,
    data: Option<Seq<u8>>,
)
    requires
        flash_loan_outcome(cfg, record, pool, amount, now, data) is Ok,
    ensures
        ({
            let receipt = flash_loan_outcome(cfg, record, pool, amount, now, data).unwrap();
            &&& receipt.amount == amount
            &&& loan_fee(cfg, amount) == Some(receipt.fee)
            &&& receipt.treasury_share == (receipt.fee * cfg.treasury_fee_numerator) / (
            cfg.treasury_fee_denominator as int)
            &&& receipt.vault_share == receipt.fee - receipt.treasury_share
            &&& pool.reserve + receipt.vault_share <= u64::MAX
            &&& pool.supply + amount <= u64::MAX
        }),
{
}

/// Of the tiers whose threshold the amount reaches, the one added last
/// applies, whatever the thresholds of the others; none applies exactly when
/// the amount reaches no tier's threshold.
pub proof fn law_last_added_qualifying_tier_wins(tiers: Seq<FeeTier>, amount: u64)
    ensures
        match qualifying_tier(tiers, amount) {
            Some(tier) => exists|i: int|
                0 <= i < tiers.len() && #[trigger] tiers[i] == tier && tier.threshold <= amount
                    && forall|j: int|
                    i < j < tiers.len() ==> (#[trigger] tiers[j]).threshold > amount,
            None => forall|j: int|
                0 <= j < tiers.len() ==> (#[trigger] tiers[j]).threshold > amount,
        },
    decreases tiers.len(),
{
    if tiers.len() == 0 {
    } else if tiers.last().threshold <= amount {
        let i = tiers.len() - 1;
        assert(tiers[i] == tiers.last());
    } else {
        let rest = tiers.drop_last();
        law_last_added_qualifying_tier_wins(rest, amount);
        assert(forall|j: int| 0 <= j < rest.len() ==> rest[j] == tiers[j]);
        match qualifying_tier(rest, amount) {
            Some(tier) => {
                let i = choose|i: int|
                    0 <= i < rest.len() && #[trigger] rest[i] == tier && tier.threshold <= amount
                        && forall|j: int|
                        i < j < rest.len() ==> (#[trigger] rest[j]).threshold > amount;
                assert(tiers[i] == tier);
                assert forall|j: int| i < j < tiers.len() implies (#[trigger] tiers[j]).threshold
                    > amount by {
                    if j < rest.len() {
                        assert(rest[j].threshold > amount);
                    }
                }
            },
            None => {
                assert forall|j: int| 0 <= j < tiers.len() implies (#[trigger] tiers[j]).threshold
                    > amount by {
                    if j < rest.len() {
                        assert(rest[j].threshold > amount);
                    }
                }
            },
        }
    }
}

/// A caller whose last loan was at time `last` is refused at `last` plus the
/// cooldown exactly, and passes the cooldown one time unit later: the
/// request is then accepted whenever its fee can be computed.
pub proof fn law_cooldown_boundary(cfg: ConfigView, last: u64, amount: u64)
    requires
        !cfg.paused,
        amount <= cfg.max_flash_loan_amount,
        last + cfg.cooldown_slots + 1 <= u64::MAX,
    ensures
        loan_terms(
            cfg,
            Some(FlashRecord { last_flash_slot: last }),
            amount,
            (last + cfg.cooldown_slots) as u64,
        ) == Err::<LoanTerms, CustomError>(CustomError::CooldownActive),
        loan_terms(
            cfg,
            Some(FlashRecord { last_flash_slot: last }),
            amount,
            (last + cfg.cooldown_slots + 1) as u64,
        ) != Err::<LoanTerms, CustomError>(CustomError::CooldownActive),
        loan_fee(cfg, amount) is Some ==> loan_terms(
            cfg,
            Some(FlashRecord { last_flash_slot: last }),
            amount,
            (last + cfg.cooldown_slots + 1) as u64,
        ) is Ok,
{
}

/// While flash loans are paused every request fails as paused, whatever
/// else holds of it, and the machine asks for no mint.
pub proof fn law_paused_refuses(
    cfg: ConfigView,
    record: Option<FlashRecord>,
    pool: Pool,
    parties: Parties,
    amount: u64,
    now: u64,
    data: Option<Seq<u8>>,
)
    requires
        cfg.paused,
    ensures
        flash_loan_outcome(cfg, record, pool, amount, now, data) == Err::<
            LoanReceipt,
            CustomError,
        >(CustomError::Paused),
        transition(cfg, record, LoanState::Idle, LoanEvent::Request { amount, now, parties })
            == Some(aborted(CustomError::Paused)),
{
}

/// A borrower that leaves nothing behind has not called back; one that
/// leaves anything but a leading one has failed; a leading one is success.
pub proof fn law_callback_signal(data: Option<Seq<u8>>)
    ensures
        data is None ==> callback_verdict(data) == Err::<(), CustomError>(CustomError::NoCallback),
        data is Some && (data.unwrap().len() == 0 || data.unwrap()[0] != 1) ==> callback_verdict(
            data,
        ) == Err::<(), CustomError>(CustomError::CallbackFailed),
        data is Some && data.unwrap().len() > 0 && data.unwrap()[0] == 1 ==> callback_verdict(data)
            is Ok,
{
}

/// The steps of a loan in their order: mint, call the borrower, burn, pay
/// the reserve, pay the treasury, finish.
pub open spec fn steps_of(
    cfg: ConfigView,
    terms: LoanTerms,
    parties: Parties,
    split: FeeSplit,
) -> Seq<LoanActionView> {
    seq![
        LoanActionView::Mint { amount: terms.amount },
        LoanActionView::Invoke,
        LoanActionView::Burn { amount: terms.amount },
        LoanActionView::PayReserve {
            amount: split.vault_share,
            transfer: transfer_of(parties.user@, parties.vault@, split.vault_share),
        },
        LoanActionView::PayTreasury {
            amount: split.treasury_share,
            transfer: transfer_of(parties.user@, cfg.treasury, split.treasury_share),
        },
        LoanActionView::Finish,
    ]
}

/// The steps of a loan that come before the fee is divided.
pub open spec fn opening_steps(terms: LoanTerms) -> Seq<LoanActionView> {
    seq![
        LoanActionView::Mint { amount: terms.amount },
        LoanActionView::Invoke,
        LoanActionView::Burn { amount: terms.amount },
    ]
}

/// How many of its steps a loan has been asked to take once the machine
/// stands in `state`.
pub open spec fn steps_taken(state: LoanState) -> int {
    match state {
        LoanState::Idle => 0,
        LoanState::LoanIssued { .. } => 1,
        LoanState::CallbackPending { .. } => 2,
        LoanState::Repaying { .. } => 3,
        LoanState::SettlingReserve { .. } => 4,
        LoanState::SettlingTreasury { .. } => 5,
        LoanState::Repaid { .. } => 6,
        LoanState::Aborted { .. } => 0,
    }
}

/// Whether `state` holds nothing but what the guards and the fee rules
/// give, and `actions` are the steps taken up to it.
pub open spec fn state_is_sound(
    cfg: ConfigView,
    record: Option<FlashRecord>,
    state: LoanState,
    actions: Seq<LoanActionView>,
) -> bool {
    match state {
        LoanState::Idle => actions.len() == 0,
        LoanState::LoanIssued { terms, parties } | LoanState::CallbackPending { terms, parties }
        | LoanState::Repaying { terms, parties } => {
            &&& loan_terms(cfg, record, terms.amount, terms.slot) == Ok::<LoanTerms, CustomError>(
                terms,
            )
            &&& actions =~= opening_steps(terms).take(steps_taken(state))
        },
        LoanState::SettlingReserve { terms, parties, split } | LoanState::SettlingTreasury {
            terms,
            parties,
            split,
        } | LoanState::Repaid { terms, parties, split } => {
            &&& loan_terms(cfg, record, terms.amount, terms.slot) == Ok::<LoanTerms, CustomError>(
                terms,
            )
            &&& fee_split(cfg, terms.fee) == Some(split)
            &&& actions =~= steps_of(cfg, terms, parties, split).take(steps_taken(state))
        },
        LoanState::Aborted { error } => true,
    }
}

/// Where the machine stands after the host has reported `events` one after
/// the other, starting from the idle state, and what it has asked for on
/// the way. `None` if some event came that the state did not await.
pub open spec fn run(
    cfg: ConfigView,
    record: Option<FlashRecord>,
    events: Seq<LoanEvent>,
) -> Option<(LoanState, Seq<LoanActionView>)>
    decreases events.len(),
{
    if events.len() == 0 {
        Some((LoanState::Idle, Seq::<LoanActionView>::empty()))
    } else {
        match run(cfg, record, events.drop_last()) {
            None => None,
            Some((state, actions)) => match transition(cfg, record, state, events.last()) {
                None => None,
                Some(step) => Some((step.state, actions.push(step.action))),
            },
        }
    }
}

/// By how much the actions change the claim-token supply.
pub open spec fn supply_change(actions: Seq<LoanActionView>) -> int
    decreases actions.len(),
{
    if actions.len() == 0 {
        0
    } else {
        supply_change(actions.drop_last()) + match actions.last() {
            LoanActionView::Mint { amount } => amount as int,
            LoanActionView::Burn { amount } => -(amount as int),
            _ => 0,
        }
    }
}

/// By how much the actions change the reserve.
pub open spec fn reserve_change(actions: Seq<LoanActionView>) -> int
    decreases actions.len(),
{
    if actions.len() == 0 {
        0
    } else {
        reserve_change(actions.drop_last()) + match actions.last() {
            LoanActionView::PayReserve { amount, transfer } => amount as int,
            _ => 0,
        }
    }
}

/// Whatever the host reports, a machine that has not aborted has asked for
/// exactly the steps up to its state, in their order, and holds terms that
/// passed the guards and a split that the fee rules give.
pub proof fn law_machine_keeps_order(
    cfg: ConfigView,
    record: Option<FlashRecord>,
    events: Seq<LoanEvent>,
)
    requires
        run(cfg, record, events) is Some,
    ensures
        state_is_sound(
            cfg,
            record,
            run(cfg, record, events).unwrap().0,
            run(cfg, record, events).unwrap().1,
        ),
    decreases events.len(),
{
    if events.len() > 0 {
        law_machine_keeps_order(cfg, record, events.drop_last());
        let (before, asked) = run(cfg, record, events.drop_last()).unwrap();
        let step = transition(cfg, record, before, events.last()).unwrap();
        let after = asked.push(step.action);
        match step.state {
            LoanState::LoanIssued { terms, parties } => {
                assert(after =~= opening_steps(terms).take(1));
            },
            LoanState::CallbackPending { terms, parties } => {
                assert(after =~= opening_steps(terms).take(2));
            },
            LoanState::Repaying { terms, parties } => {
                assert(after =~= opening_steps(terms).take(3));
            },
            LoanState::SettlingReserve { terms, parties, split } => {
                let all = steps_of(cfg, terms, parties, split);
                assert(asked =~= opening_steps(terms).take(3));
                assert(after =~= all.take(4));
            },
            LoanState::SettlingTreasury { terms, parties, split } => {
                let all = steps_of(cfg, terms, parties, split);
                assert(after =~= all.take(5));
            },
            LoanState::Repaid { terms, parties, split } => {
                let all = steps_of(cfg, terms, parties, split);
                assert(after =~= all.take(6));
            },
            _ => {},
        }
    }
}

/// Whatever the host reports, a loan that the machine counts as repaid has
/// taken every step once and in order: its principal was minted and burned
/// again, so that the supply is unchanged; the caller paid the reserve's
/// share into the vault and the treasury's share to the configured
/// treasury; and the reserve has gained the fee less the treasury's share.
pub proof fn law_repaid_loan_conserves(
    cfg: ConfigView,
    record: Option<FlashRecord>,
    events: Seq<LoanEvent>,
)
    requires
        run(cfg, record, events) is Some,
        run(cfg, record, events).unwrap().0 is Repaid,
    ensures
        ({
            let (state, actions) = run(cfg, record, events).unwrap();
            let terms = state->Repaid_terms;
            let parties = state->Repaid_parties;
            let split = state->Repaid_split;
            &&& loan_terms(cfg, record, terms.amount, terms.slot) == Ok::<LoanTerms, CustomError>(
                terms,
            )
            &&& fee_split(cfg, terms.fee) == Some(split)
            &&& actions == steps_of(cfg, terms, parties, split)
            &&& supply_change(actions) == 0
            &&& reserve_change(actions) == terms.fee - split.treasury_share
        }),
{
    law_machine_keeps_order(cfg, record, events);
    let (state, actions) = run(cfg, record, events).unwrap();
    let all = steps_of(cfg, state->Repaid_terms, state->Repaid_parties, state->Repaid_split);
    assert(all.take(6) =~= all);
    lemma_changes_of_all_steps(
        cfg,
        state->Repaid_terms,
        state->Repaid_parties,
        state->Repaid_split,
    );
}

/// The changes that the six steps add up to.
proof fn lemma_changes_of_all_steps(
    cfg: ConfigView,
    terms: LoanTerms,
    parties: Parties,
    split: FeeSplit,
)
    ensures
        supply_change(steps_of(cfg, terms, parties, split)) == 0,
        reserve_change(steps_of(cfg, terms, parties, split)) == split.vault_share,
{
    let s6 = steps_of(cfg, terms, parties, split);
    let s5 = s6.drop_last();
    let s4 = s5.drop_last();
    let s3 = s4.drop_last();
    let s2 = s3.drop_last();
    let s1 = s2.drop_last();
    let s0 = s1.drop_last();
    assert(s5.last() == s6[4] && s4.last() == s6[3] && s3.last() == s6[2] && s2.last() == s6[1]
        && s1.last() == s6[0]);
    assert(supply_change(s0) == 0 && reserve_change(s0) == 0);
    assert(supply_change(s1) == terms.amount && reserve_change(s1) == 0);
    assert(supply_change(s2) == terms.amount && reserve_change(s2) == 0);
    assert(supply_change(s3) == 0 && reserve_change(s3) == 0);
    assert(supply_change(s4) == 0 && reserve_change(s4) == split.vault_share);
    assert(supply_change(s5) == 0 && reserve_change(s5) == split.vault_share);
}

/// The events of a loan on which every step succeeds.
pub open spec fn full_course(amount: u64, now: u64, parties: Parties, data: Option<Vec<u8>>) -> Seq<
    LoanEvent,
> {
    seq![
        LoanEvent::Request { amount, now, parties },
        LoanEvent::Completed,
        LoanEvent::Returned { data },
        LoanEvent::Completed,
        LoanEvent::Completed,
        LoanEvent::Completed,
    ]
}

/// The operation on a pool and the machine agree: the operation succeeds
/// exactly when the machine, led through the full course, arrives at the
/// repaid state and the pool has room for the principal and for the
/// reserve's share; the receipt then holds the machine's terms and split.
pub proof fn law_operation_follows_machine(
    cfg: ConfigView,
    record: Option<FlashRecord>,
    pool: Pool,
    parties: Parties,
    amount: u64,
    now: u64,
    data: Option<Vec<u8>>,
)
    ensures
        match flash_loan_outcome(cfg, record, pool, amount, now, signal_view(data)) {
            Ok(receipt) => {
                &&& run(cfg, record, full_course(amount, now, parties, data)) is Some
                &&& run(cfg, record, full_course(amount, now, parties, data)).unwrap().0 == (
                LoanState::Repaid {
                    terms: LoanTerms { amount, fee: receipt.fee, slot: now },
                    parties,
                    split: FeeSplit {
                        treasury_share: receipt.treasury_share,
                        vault_share: receipt.vault_share,
                    },
                })
            },
            Err(_) => {
                let reached = run(cfg, record, full_course(amount, now, parties, data));
                reached is Some && reached.unwrap().0 is Repaid ==> pool.supply + amount > u64::MAX
                    || pool.reserve + reached.unwrap().0->Repaid_split.vault_share > u64::MAX
            },
        },
{
    let e = full_course(amount, now, parties, data);
    let e5 = e.drop_last();
    let e4 = e5.drop_last();
    let e3 = e4.drop_last();
    let e2 = e3.drop_last();
    let e1 = e2.drop_last();
    let e0 = e1.drop_last();
    assert(e0.len() == 0);
    assert(e1.last() == e[0] && e2.last() == e[1] && e3.last() == e[2] && e4.last() == e[3]
        && e5.last() == e[4] && e.last() == e[5]);
    assert(run(cfg, record, e0) == Some((LoanState::Idle, Seq::<LoanActionView>::empty())));
    let r1 = run(cfg, record, e1);
    let r2 = run(cfg, record, e2);
    let r3 = run(cfg, record, e3);
    let r4 = run(cfg, record, e4);
    let r5 = run(cfg, record, e5);
    let r6 = run(cfg, record, e);
    assert(r1 is Some);
    match loan_terms(cfg, record, amount, now) {
        Ok(terms) => {
            assert(r1.unwrap().0 == LoanState::LoanIssued { terms, parties });
            assert(r2 is Some && r2.unwrap().0 == LoanState::CallbackPending { terms, parties });
            assert(r3 is Some);
            match callback_verdict(signal_view(data)) {
                Ok(_) => {
                    assert(r3.unwrap().0 == LoanState::Repaying { terms, parties });
                    assert(r4 is Some);
                    match fee_split(cfg, terms.fee) {
                        Some(split) => {
                            assert(r4.unwrap().0 == LoanState::SettlingReserve {
                                terms,
                                parties,
                                split,
                            });
                            assert(r5 is Some && r5.unwrap().0 == LoanState::SettlingTreasury {
                                terms,
                                parties,
                                split,
                            });
                            assert(r6 is Some && r6.unwrap().0 == LoanState::Repaid {
                                terms,
                                parties,
                                split,
                            });
                        },
                        None => {
                            assert(r4.unwrap().0 is Aborted);
                            assert(r5 is None);
                            assert(r6 is None);
                        },
                    }
                },
                Err(_) => {
                    assert(r3.unwrap().0 is Aborted);
                    assert(r4 is None);
                    assert(r5 is None);
                    assert(r6 is None);
                },
            }
        },
        Err(_) => {
            assert(r1.unwrap().0 is Aborted);
            assert(r2 is None);
            assert(r3 is None);
            assert(r4 is None);
            assert(r5 is None);
            assert(r6 is None);
        },
    }
}

} // verus!
