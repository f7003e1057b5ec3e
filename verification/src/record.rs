//! The per-caller record that spaces flash loans apart.

use vstd::prelude::*;

verus! {

/// When a caller last completed a flash loan. A caller who has never
/// borrowed has no record.
#[derive(Clone, Copy, Debug, PartialEq, Eq, Structural)]
pub struct FlashRecord {
    pub last_flash_slot: u64,
}

/// Whether a caller with this record may borrow at time `now`: always
/// without a record, else only strictly later than the last loan plus the
/// cooldown.
pub open spec fn cooldown_over(record: Option<FlashRecord>, cooldown_slots: u64, now: u64) -> bool {
    match record {
        None => true,
        Some(rec) => now > rec.last_flash_slot + cooldown_slots,
    }
}

/// Whether a caller with this record may borrow at time `now`.
pub fn cooldown_elapsed(record: &Option<FlashRecord>, cooldown_slots: u64, now: u64) -> (r: bool)
    ensures
        r == cooldown_over(*record, cooldown_slots, now),
{
    match record {
        None => true,
        Some(rec) => match rec.last_flash_slot.checked_add(cooldown_slots) {
            Some(ready_after) => now > ready_after,
            None => false,
        },
    }
}

} // verus!
