//! The slot table over atomic cells, for a completion callback that fires on
//! threads the consumer does not control.
//!
//! Every operation is a bounded run of sequentially consistent loads, stores
//! and compare-and-swaps; none blocks. The decisions are those of `slots` and
//! `bridge`. What other threads do between two atomic steps is not modelled,
//! so the contracts here state only what holds under every interleaving; what
//! a single owner observes is stated, and proved, on `slots::SlotTable`.

use crate::bridge::{
    callback_code, callback_index, code_of_word, scan_step, slot_index, slot_or_sentinel,
    widen_code, ScanStep,
};
use crate::slots::{is_code, MAX_SLOTS, NO_SLOT, PENDING};
use std::sync::atomic::{AtomicI32, Ordering};
use vstd::prelude::*;

verus! {

/// Allocation flag of a free slot.
pub const FLAG_FREE: i32 = 0;

/// Allocation flag of a slot that is handed out.
pub const FLAG_TAKEN: i32 = 1;

/// A slot table that any number of threads may use through a shared reference.
pub struct SharedSlotTable {
    allocated: Vec<AtomicI32>,
    results: Vec<AtomicI32>,
}

impl SharedSlotTable {
    #[verifier::type_invariant]
    spec fn well_formed(&self) -> bool {
        &&& self.allocated@.len() == MAX_SLOTS
        &&& self.results@.len() == MAX_SLOTS
    }

    /// The number of slots of the table.
    pub closed spec fn slot_count(&self) -> nat {
        self.allocated@.len()
    }

    /// A table of `MAX_SLOTS` slots. Each cell is made with the flag of a
    /// free slot and the result `PENDING`; the cells are atomics, of whose
    /// content no contract speaks.
    pub fn new() -> (table: SharedSlotTable)
        ensures
            table.slot_count() == MAX_SLOTS,
    {
        let mut allocated: Vec<AtomicI32> = Vec::new();
        let mut results: Vec<AtomicI32> = Vec::new();
        let mut i: usize = 0;
        while i < MAX_SLOTS
            invariant
                i <= MAX_SLOTS,
                allocated@.len() == i,
                results@.len() == i,
            decreases MAX_SLOTS - i,
        {
            allocated.push(AtomicI32::new(FLAG_FREE));
            results.push(AtomicI32::new(widen_code(PENDING)));
            i = i + 1;
        }
        SharedSlotTable { allocated, results }
    }

    /// Scans the slots from the lowest and claims the first whose flag it can
    /// swap from free to taken, storing `PENDING` as that slot's result.
    /// Returns the slot's index, or `NO_SLOT` when no swap succeeded in one
    /// full scan. Which swap succeeds is up to the other threads; what the
    /// scan makes of each swap is `scan_step`.
    pub fn alloc_slot(&self) -> (slot: i32)
        ensures
            slot == NO_SLOT || 0 <= slot < MAX_SLOTS,
    {
        proof {
            use_type_invariant(self);
        }
        let mut i: usize = 0;
        while i < MAX_SLOTS
            invariant
                i <= MAX_SLOTS,
                self.allocated@.len() == MAX_SLOTS,
                self.results@.len() == MAX_SLOTS,
            decreases MAX_SLOTS - i,
        {
            let swapped = self.allocated[i].compare_exchange(
                FLAG_FREE,
                FLAG_TAKEN,
                Ordering::SeqCst,
                Ordering::SeqCst,
            );
            match scan_step(i, swapped) {
                ScanStep::Claimed(slot) => {
                    self.results[i].store(widen_code(PENDING), Ordering::SeqCst);
                    return slot;
                },
                ScanStep::Next(above) => {
                    i = above;
                },
                ScanStep::Exhausted => {
                    return slot_or_sentinel(None);
                },
            }
        }
        slot_or_sentinel(None)
    }

    /// Releases `slot`: where its flag reads taken, stores `PENDING` as its
    /// result and then marks it free, so that the cell is rearmed before
    /// another thread can claim the slot. A reference outside the table is
    /// ignored, and so is the release of a slot whose flag reads free: its
    /// cells are not written.
    pub fn free_slot(&self, slot: i32) {
        proof {
            use_type_invariant(self);
        }
        match slot_index(slot) {
            Some(i) => {
                let flag = self.allocated[i].load(Ordering::SeqCst);
                if is_taken(flag) {
                    self.results[i].store(widen_code(PENDING), Ordering::SeqCst);
                    self.allocated[i].store(FLAG_FREE, Ordering::SeqCst);
                }
            },
            None => {},
        }
    }

    /// Loads the result of `slot` and hands on the code that the word
    /// stands for, which is one of `PENDING`, `READY` and `WAKE_AGAIN`;
    /// `PENDING` for a reference outside the table.
    pub fn get_result(&self, slot: i32) -> (code: i8)
        ensures
            is_code(code),
            !(0 <= slot < MAX_SLOTS) ==> code == PENDING,
    {
        proof {
            use_type_invariant(self);
        }
        match slot_index(slot) {
            Some(i) => code_of_word(self.results[i].load(Ordering::SeqCst)),
            None => PENDING,
        }
    }

    /// Stores `PENDING` as the result of `slot` and leaves its flag alone. A
    /// reference outside the table is ignored.
    pub fn reset_result(&self, slot: i32) {
        proof {
            use_type_invariant(self);
        }
        match slot_index(slot) {
            Some(i) => {
                self.results[i].store(widen_code(PENDING), Ordering::SeqCst);
            },
            None => {},
        }
    }

    /// The completion callback: stores what the engine reports, `READY` or
    /// `WAKE_AGAIN`, as the result of the slot that `callback_data` names. A
    /// callback with any other code is ignored, and so is one whose word
    /// names no slot: nothing is stored.
    pub fn callback(&self, callback_data: u64, poll_result: i8) {
        proof {
            use_type_invariant(self);
        }
        match callback_index(callback_data) {
            Some(i) => {
                match callback_code(poll_result) {
                    Some(code) => {
                        self.results[i].store(widen_code(code), Ordering::SeqCst);
                    },
                    None => {},
                }
            },
            None => {},
        }
    }
}

/// Whether a slot whose flag reads `flag` is handed out, so that a release
/// has something to release.
pub fn is_taken(flag: i32) -> (taken: bool)
    ensures
        taken == (flag == FLAG_TAKEN),
{
    flag == FLAG_TAKEN
}

} // verus!
