//! The records of all callers, looked up by the caller's identity.
//!
//! A caller has no record until the first flash loan completes. From then on
//! the record holds the time of the caller's latest completed loan. Records
//! are written by completed loans only and are never removed.

use vstd::prelude::*;
use crate::config::Config;
use crate::error::CustomError;
use crate::identity::Identity;
use crate::loan::{flash_loan, flash_loan_outcome, pool_after_loan, signal_view, LoanReceipt};
use crate::pool::Pool;
use crate::record::FlashRecord;

verus! {

/// One caller's record.
#[derive(Clone, Copy, Debug)]
struct Entry {
    owner: Identity,
    record: FlashRecord,
}

/// The rate-limit records, one per caller at most.
#[derive(Clone, Debug)]
pub struct RecordBook {
    entries: Vec<Entry>,
}

/// The record that the entries hold for `key`: that of the hindmost entry
/// owned by `key`.
spec fn lookup(entries: Seq<Entry>, key: Seq<u8>) -> Option<FlashRecord>
    decreases entries.len(),
{
    if entries.len() == 0 {
        None
    } else if entries.last().owner@ == key {
        Some(entries.last().record)
    } else {
        lookup(entries.drop_last(), key)
    }
}

/// No entry is owned by `key` exactly when there is no record for it.
proof fn lemma_lookup_none(entries: Seq<Entry>, key: Seq<u8>)
    requires
        forall|j: int| 0 <= j < entries.len() ==> (#[trigger] entries[j]).owner@ != key,
    ensures
        lookup(entries, key) is None,
    decreases entries.len(),
{
    if entries.len() > 0 {
        let rest = entries.drop_last();
        assert(forall|j: int| 0 <= j < rest.len() ==> rest[j] == entries[j]);
        lemma_lookup_none(rest, key);
    }
}

/// Where `at` is the hindmost entry owned by `key`, its record is the record
/// for `key`.
proof fn lemma_lookup_hindmost(entries: Seq<Entry>, key: Seq<u8>, at: int)
    requires
        0 <= at < entries.len(),
        entries[at].owner@ == key,
        forall|j: int| at < j < entries.len() ==> (#[trigger] entries[j]).owner@ != key,
    ensures
        lookup(entries, key) == Some(entries[at].record),
    decreases entries.len(),
{
    if at < entries.len() - 1 {
        let rest = entries.drop_last();
        assert(forall|j: int| 0 <= j < rest.len() ==> rest[j] == entries[j]);
        lemma_lookup_hindmost(rest, key, at);
    }
}

/// Rewriting the record of the hindmost entry owned by some caller changes
/// that caller's record and nobody else's.
proof fn lemma_lookup_after_rewrite(
    entries: Seq<Entry>,
    at: int,
    record: FlashRecord,
    key: Seq<u8>,
)
    requires
        0 <= at < entries.len(),
        forall|j: int|
            at < j < entries.len() ==> (#[trigger] entries[j]).owner@ != entries[at].owner@,
    ensures
        lookup(entries.update(at, Entry { owner: entries[at].owner, record }), key) == if key
            == entries[at].owner@ {
            Some(record)
        } else {
            lookup(entries, key)
        },
    decreases entries.len(),
{
    let rewritten = entries.update(at, Entry { owner: entries[at].owner, record });
    if at == entries.len() - 1 {
        assert(rewritten.drop_last() =~= entries.drop_last());
    } else {
        let rest = entries.drop_last();
        assert(forall|j: int| 0 <= j < rest.len() ==> rest[j] == entries[j]);
        assert(rewritten.drop_last() =~= rest.update(
            at,
            Entry { owner: rest[at].owner, record },
        ));
        assert(rewritten.last() == entries.last());
        assert(entries[entries.len() - 1].owner@ != entries[at].owner@);
        lemma_lookup_after_rewrite(rest, at, record, key);
    }
}

impl RecordBook {
    /// The record of the caller named `key`, if the caller has one.
    pub closed spec fn record_of(&self, key: Seq<u8>) -> Option<FlashRecord> {
        lookup(self.entries@, key)
    }

    /// A book in which nobody has a record.
    pub fn new() -> (book: RecordBook)
        ensures
            forall|key: Seq<u8>| book.record_of(key) is None,
    {
        RecordBook { entries: Vec::new() }
    }

    /// The position of the hindmost entry owned by `caller`.
    fn position(&self, caller: &Identity) -> (r: Option<usize>)
        ensures
            match r {
                Some(at) => {
                    &&& at < self.entries@.len()
                    &&& self.entries@[at as int].owner@ == caller@
                    &&& forall|j: int|
                        at < j < self.entries@.len() ==> (#[trigger] self.entries@[j]).owner@
                            != caller@
                },
                None => forall|j: int|
                    0 <= j < self.entries@.len() ==> (#[trigger] self.entries@[j]).owner@
                        != caller@,
            },
    {
        let mut i: usize = self.entries.len();
        while i > 0
            invariant
                i <= self.entries@.len(),
                forall|j: int|
                    i <= j < self.entries@.len() ==> (#[trigger] self.entries@[j]).owner@
                        != caller@,
            decreases i,
        {
            i -= 1;
            if self.entries[i].owner.same(caller) {
                return Some(i);
            }
        }
        None
    }

    /// The record of `caller`, if the caller has one.
    pub fn get(&self, caller: &Identity) -> (r: Option<FlashRecord>)
        ensures
            r == self.record_of(caller@),
    {
        match self.position(caller) {
            Some(at) => {
                proof {
                    lemma_lookup_hindmost(self.entries@, caller@, at as int);
                }
                Some(self.entries[at].record)
            },
            None => {
                proof {
                    lemma_lookup_none(self.entries@, caller@);
                }
                None
            },
        }
    }

    /// Writes the record of `caller`, making it if there is none.
    fn put(&mut self, caller: &Identity, record: FlashRecord)
        ensures
            forall|key: Seq<u8>| #[trigger]
                final(self).record_of(key) == if key == caller@ {
                    Some(record)
                } else {
                    old(self).record_of(key)
                },
    {
        match self.position(caller) {
            Some(at) => {
                let owner = self.entries[at].owner;
                proof {
                    assert forall|key: Seq<u8>| #[trigger]
                        lookup(self.entries@.update(at as int, Entry { owner, record }), key)
                            == if key == caller@ {
                            Some(record)
                        } else {
                            lookup(self.entries@, key)
                        } by {
                        lemma_lookup_after_rewrite(self.entries@, at as int, record, key);
                    }
                }
                self.entries.set(at, Entry { owner, record });
            },
            None => {
                proof {
                    let grown = self.entries@.push(Entry { owner: *caller, record });
                    assert(grown.drop_last() =~= self.entries@);
                    assert(grown.last() == Entry { owner: *caller, record });
                }
                self.entries.push(Entry { owner: *caller, record });
            },
        }
    }
}

/// Runs a whole flash loan for `caller`, whose record is looked up in
/// `book`, on `pool`, where `return_data` is what the borrower left behind.
///
/// The loan is judged against the caller's own record and against nobody
/// else's. On success the caller's record, made now if there was none, holds
/// `now`, and every other caller's record is as it was. On failure neither
/// the pool nor the book has changed.
pub fn flash_loan_for(
    cfg: &Config,
    book: &mut RecordBook,
    pool: &mut Pool,
    caller: &Identity,
    amount: u64,
    now: u64,
    return_data: &Option<Vec<u8>>,
) -> (r: Result<LoanReceipt, CustomError>)
    ensures
        r == flash_loan_outcome(
            cfg@,
            old(book).record_of(caller@),
            *old(pool),
            amount,
            now,
            signal_view(*return_data),
        ),
        match r {
            Ok(receipt) => {
                &&& *final(pool) == pool_after_loan(*old(pool), receipt)
                &&& forall|key: Seq<u8>| #[trigger]
                    final(book).record_of(key) == if key == caller@ {
                        Some(FlashRecord { last_flash_slot: now })
                    } else {
                        old(book).record_of(key)
                    }
            },
            Err(_) => *final(pool) == *old(pool) && *final(book) == *old(book),
        },
{
    let mut record = book.get(caller);
    let receipt = flash_loan(cfg, &mut record, pool, amount, now, return_data)?;
    book.put(caller, FlashRecord { last_flash_slot: now });
    Ok(receipt)
}

} // verus!
