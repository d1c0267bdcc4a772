//! The operations of the slot table in the shape in which a native engine
//! calls them: signed slot references, a sentinel for exhaustion, and the
//! completion callback's 64-bit user-data word.

use crate::slots::{
    is_code, is_full, is_lowest_free, is_report, lowest_free, spec_alloc, spec_callback,
    spec_free, spec_read_result, spec_reset_result, SlotTable, MAX_SLOTS, NO_SLOT, PENDING,
    READY, WAKE_AGAIN,
};
use vstd::prelude::*;

verus! {

/// Bounds check of a signed slot reference.
pub fn slot_index(slot: i32) -> (r: Option<usize>)
    ensures
        r is Some <==> 0 <= slot < MAX_SLOTS,
        r matches Some(i) ==> i == slot,
{
    if slot >= 0 && slot < MAX_SLOTS as i32 {
        Some(slot as usize)
    } else {
        None
    }
}

/// Bounds check of the user-data word that a completion callback carries.
pub fn callback_index(callback_data: u64) -> (r: Option<usize>)
    ensures
        r is Some <==> callback_data < MAX_SLOTS,
        r matches Some(i) ==> i == callback_data,
{
    if callback_data < MAX_SLOTS as u64 {
        Some(callback_data as usize)
    } else {
        None
    }
}

/// The signed form of an allocation's outcome: the index of the slot that
/// was claimed, or `NO_SLOT` where none was. An index that names no slot
/// counts as none.
pub fn slot_or_sentinel(claimed: Option<usize>) -> (slot: i32)
    ensures
        slot == match claimed {
            Some(i) => if i < MAX_SLOTS {
                i as int
            } else {
                NO_SLOT as int
            },
            None => NO_SLOT as int,
        },
{
    match claimed {
        Some(i) => if i < MAX_SLOTS {
            i as i32
        } else {
            NO_SLOT
        },
        None => NO_SLOT,
    }
}

/// How a scan for a free slot goes on after one attempt to claim a slot.
#[derive(Clone, Copy, Debug)]
pub enum ScanStep {
    /// The attempt succeeded: the scan ends with the index of the slot.
    Claimed(i32),
    /// The attempt failed: the scan goes on with the slot of this index.
    Next(usize),
    /// The attempt failed on the last slot: the scan ends without a slot.
    Exhausted,
}

/// What a scan does after the attempt on the slot `at`, which succeeded or
/// not: it ends with `at` where the attempt succeeded, goes on with the slot
/// above `at` where it failed and there is one, and ends without a slot
/// where it failed on the last.
pub open spec fn spec_scan_step(at: int, succeeded: bool) -> ScanStep {
    if !(0 <= at < MAX_SLOTS) {
        ScanStep::Exhausted
    } else if succeeded {
        ScanStep::Claimed(at as i32)
    } else if at + 1 < MAX_SLOTS {
        ScanStep::Next((at + 1) as usize)
    } else {
        ScanStep::Exhausted
    }
}

/// The step that a scan takes after it tried to swap the flag of the slot
/// `at` from free to taken. `swapped` is what the compare-and-swap gave: `Ok`
/// where it stored the new flag, `Err` where the slot was taken already.
pub fn scan_step(at: usize, swapped: Result<i32, i32>) -> (step: ScanStep)
    ensures
        step == spec_scan_step(at as int, swapped is Ok),
{
    if at >= MAX_SLOTS {
        ScanStep::Exhausted
    } else if swapped.is_ok() {
        ScanStep::Claimed(at as i32)
    } else if at + 1 < MAX_SLOTS {
        ScanStep::Next(at + 1)
    } else {
        ScanStep::Exhausted
    }
}

/// A result code as the 32-bit word that a result cell holds.
pub fn widen_code(code: i8) -> (word: i32)
    ensures
        word == code,
{
    code as i32
}

/// The code that the word of a result cell stands for: the word itself where
/// it is one of the three codes, and `PENDING` for any other word.
pub open spec fn spec_code_of_word(word: i32) -> i8 {
    if word == PENDING as i32 || word == READY as i32 || word == WAKE_AGAIN as i32 {
        word as i8
    } else {
        PENDING
    }
}

/// The result code that the word of a result cell stands for. A word that
/// `widen_code` made of one of the three codes gives that code back; any
/// other word reads as `PENDING`.
pub fn code_of_word(word: i32) -> (code: i8)
    ensures
        code == spec_code_of_word(word),
        is_code(code),
{
    if word == 0 {
        READY
    } else if word == 1 {
        WAKE_AGAIN
    } else {
        PENDING
    }
}

/// A code that is widened to a word is read back from it.
pub proof fn lemma_word_keeps_code(code: i8)
    requires
        is_code(code),
    ensures
        spec_code_of_word(code as i32) == code,
{
}

/// The code that a completion callback stores for what the engine reports:
/// `READY` or `WAKE_AGAIN` as it comes, and nothing for any other code.
pub fn callback_code(poll_result: i8) -> (code: Option<i8>)
    ensures
        code is Some <==> is_report(poll_result),
        code matches Some(c) ==> c == poll_result,
{
    if poll_result == READY || poll_result == WAKE_AGAIN {
        Some(poll_result)
    } else {
        None
    }
}

/// Claims the lowest free slot and returns its index, with the slot's result
/// forced to `PENDING`; returns `NO_SLOT` and leaves the table as it is when
/// every slot is taken.
pub fn async_helper_alloc_slot(table: &mut SlotTable) -> (slot: i32)
    ensures
        final(table)@ == spec_alloc(old(table)@),
        slot == match lowest_free(old(table)@) {
            Some(k) => k,
            None => NO_SLOT as int,
        },
        slot != NO_SLOT ==> is_lowest_free(old(table)@, slot as int),
        slot == NO_SLOT ==> is_full(old(table)@),
{
    proof {
        use_type_invariant(&*table);
    }
    let claimed = table.alloc_slot();
    slot_or_sentinel(claimed)
}

/// Releases `slot` and rearms its result. A reference outside the table is
/// ignored, and so is the release of a slot that is already free: such a
/// slot keeps the result it holds.
pub fn async_helper_free_slot(table: &mut SlotTable, slot: i32)
    ensures
        final(table)@ == spec_free(old(table)@, slot as int),
{
    proof {
        use_type_invariant(&*table);
    }
    match slot_index(slot) {
        Some(i) => table.free(i),
        None => {},
    }
}

/// The result last stored for `slot`: `PENDING`, `READY` or `WAKE_AGAIN` as
/// the callback reported it; `PENDING` for a reference outside the table.
pub fn async_helper_get_result(table: &SlotTable, slot: i32) -> (code: i8)
    ensures
        code == spec_read_result(table@, slot as int),
        is_code(code),
{
    proof {
        use_type_invariant(table);
    }
    match slot_index(slot) {
        Some(i) => table.read_result(i),
        None => PENDING,
    }
}

/// Rearms the result of `slot` to `PENDING` without releasing the slot. A
/// reference outside the table is ignored.
pub fn async_helper_reset_result(table: &mut SlotTable, slot: i32)
    ensures
        final(table)@ == spec_reset_result(old(table)@, slot as int),
{
    proof {
        use_type_invariant(&*table);
    }
    match slot_index(slot) {
        Some(i) => table.reset_result(i),
        None => {},
    }
}

/// The completion callback: stores what the engine reports, `READY` or
/// `WAKE_AGAIN`, as the result of the slot that `callback_data` names,
/// whether or not that slot is handed out. A callback with any other code is
/// ignored, and so is one whose word names no slot.
pub fn uniffi_async_callback(table: &mut SlotTable, callback_data: u64, poll_result: i8)
    ensures
        final(table)@ == spec_callback(old(table)@, callback_data as int, poll_result),
{
    proof {
        use_type_invariant(&*table);
    }
    match callback_index(callback_data) {
        Some(i) => table.callback(i, poll_result),
        None => {},
    }
}

} // verus!
