//! What holds of the slot table over whole sequences of calls.
//!
//! The statements are made over the spec functions of `slots`, which are the
//! ones that the contracts of the table's operations use.

use crate::slots::{
    code_value, fresh, holds_codes, in_range, is_code, is_full, is_lowest_free, is_report,
    lemma_lowest_free_is, lemma_lowest_free_none, lowest_free, spec_alloc, spec_callback,
    spec_free, spec_read_result, spec_reset_result, spec_set_result, ResultCode, Slot,
    MAX_SLOTS, PENDING, READY, WAKE_AGAIN,
};
use vstd::prelude::*;

verus! {

/// One call on the table.
pub enum Op {
    /// An allocation.
    Alloc,
    /// The release of a slot.
    Free(int),
    /// A completion callback for a slot, with the code it reports.
    Callback(int, i8),
    /// The rearming of a slot's result.
    Reset(int),
}

/// The table after one call.
pub open spec fn step(s: Seq<Slot>, op: Op) -> Seq<Slot> {
    match op {
        Op::Alloc => spec_alloc(s),
        Op::Free(slot) => spec_free(s, slot),
        Op::Callback(slot, code) => spec_callback(s, slot, code),
        Op::Reset(slot) => spec_reset_result(s, slot),
    }
}

/// The table after the calls `ops`, made in order.
pub open spec fn run(s: Seq<Slot>, ops: Seq<Op>) -> Seq<Slot>
    decreases ops.len(),
{
    if ops.len() == 0 {
        s
    } else {
        step(run(s, ops.drop_last()), ops.last())
    }
}

/// What the call at place `k` of `ops` returns if it is an allocation: the
/// slot that is lowest and free after the calls before it.
pub open spec fn alloc_result(s: Seq<Slot>, ops: Seq<Op>, k: int) -> Option<int> {
    lowest_free(run(s, ops.take(k)))
}

/// Whether no call in `ops` is a release.
pub open spec fn has_no_free(ops: Seq<Op>) -> bool {
    forall|i: int| 0 <= i < ops.len() ==> !(#[trigger] ops[i] is Free)
}

/// The number of allocations among `ops`.
pub open spec fn count_allocs(ops: Seq<Op>) -> nat
    decreases ops.len(),
{
    if ops.len() == 0 {
        0
    } else if ops.last() is Alloc {
        count_allocs(ops.drop_last()) + 1
    } else {
        count_allocs(ops.drop_last())
    }
}

/// Whether exactly the lowest `n` slots of `s` are taken.
pub open spec fn taken_below(s: Seq<Slot>, n: int) -> bool {
    forall|i: int| 0 <= i < s.len() ==> ((#[trigger] s[i]).allocated <==> i < n)
}

/// No call changes the number of slots.
pub proof fn lemma_step_keeps_len(s: Seq<Slot>, op: Op)
    ensures
        step(s, op).len() == s.len(),
{
    lemma_lowest_free_none(s);
}

/// No sequence of calls changes the number of slots.
pub proof fn lemma_run_keeps_len(s: Seq<Slot>, ops: Seq<Op>)
    ensures
        run(s, ops).len() == s.len(),
    decreases ops.len(),
{
    if ops.len() > 0 {
        lemma_run_keeps_len(s, ops.drop_last());
        lemma_step_keeps_len(run(s, ops.drop_last()), ops.last());
    }
}

/// Only a release frees a slot: a slot that is taken after the first `k` of
/// the calls `ops` is still taken after the first `n`, if no release is among
/// the calls.
pub proof fn lemma_taken_stays_taken(s: Seq<Slot>, ops: Seq<Op>, k: int, n: int, j: int)
    requires
        has_no_free(ops),
        0 <= k <= n <= ops.len(),
        in_range(s, j),
        run(s, ops.take(k))[j].allocated,
    ensures
        run(s, ops.take(n)).len() == s.len(),
        run(s, ops.take(n))[j].allocated,
    decreases n - k,
{
    lemma_run_keeps_len(s, ops.take(n));
    if k < n {
        lemma_taken_stays_taken(s, ops, k, n - 1, j);
        let before = run(s, ops.take(n - 1));
        assert(ops.take(n).drop_last() =~= ops.take(n - 1));
        assert(ops.take(n).last() == ops[n - 1]);
        assert(!(ops[n - 1] is Free));
        lemma_run_keeps_len(s, ops.take(n - 1));
        lemma_lowest_free_none(before);
    }
}

/// With no release in between, allocations hand out slots in rising order: of
/// two successful allocations the later one returns the higher slot, so no
/// two of them return the same. Callbacks, resets and failed allocations may
/// come in between.
pub proof fn lemma_allocations_distinct(s: Seq<Slot>, ops: Seq<Op>, m: int, n: int)
    requires
        has_no_free(ops),
        0 <= m < n < ops.len(),
        ops[m] is Alloc,
        ops[n] is Alloc,
        alloc_result(s, ops, m) is Some,
        alloc_result(s, ops, n) is Some,
    ensures
        alloc_result(s, ops, m).unwrap() < alloc_result(s, ops, n).unwrap(),
{
    let a = alloc_result(s, ops, m).unwrap();
    let b = alloc_result(s, ops, n).unwrap();
    let sm = run(s, ops.take(m));
    let sn = run(s, ops.take(n));
    lemma_run_keeps_len(s, ops.take(m));
    lemma_run_keeps_len(s, ops.take(n));
    lemma_lowest_free_none(sm);
    lemma_lowest_free_none(sn);
    assert(ops.take(m + 1).drop_last() =~= ops.take(m));
    assert(ops.take(m + 1).last() == ops[m]);
    assert(run(s, ops.take(m + 1)) == spec_alloc(sm));
    assert(run(s, ops.take(m + 1))[a].allocated);
    lemma_taken_stays_taken(s, ops, m + 1, n, a);
    assert(sn[a].allocated);
    if b < a {
        assert(sm[b].allocated);
        lemma_taken_stays_taken(s, ops, m, n, b);
    }
}

/// The fresh table issues exactly `MAX_SLOTS` slots. After calls without a
/// release, of which `count_allocs` are allocations, the lowest
/// `count_allocs` slots are taken, or all of them once there were
/// `MAX_SLOTS` allocations; so the next allocation returns the slot
/// `count_allocs`, and fails from the allocation after the `MAX_SLOTS`-th on.
pub proof fn lemma_fresh_table_issues_every_slot(ops: Seq<Op>)
    requires
        has_no_free(ops),
    ensures
        run(fresh(), ops).len() == MAX_SLOTS,
        count_allocs(ops) < MAX_SLOTS ==> taken_below(run(fresh(), ops), count_allocs(ops) as int)
            && lowest_free(run(fresh(), ops)) == Some(count_allocs(ops) as int),
        count_allocs(ops) >= MAX_SLOTS ==> is_full(run(fresh(), ops)) && lowest_free(
            run(fresh(), ops),
        ) is None,
    decreases ops.len(),
{
    let after = run(fresh(), ops);
    lemma_run_keeps_len(fresh(), ops);
    if ops.len() == 0 {
        assert(taken_below(fresh(), 0));
        assert(is_lowest_free(fresh(), 0));
        lemma_lowest_free_is(fresh(), 0);
    } else {
        let before = run(fresh(), ops.drop_last());
        let n = count_allocs(ops.drop_last());
        assert(has_no_free(ops.drop_last())) by {
            assert forall|i: int| 0 <= i < ops.drop_last().len() implies !(
            #[trigger] ops.drop_last()[i] is Free) by {
                assert(ops.drop_last()[i] == ops[i]);
            }
        }
        lemma_fresh_table_issues_every_slot(ops.drop_last());
        lemma_lowest_free_none(before);
        assert(!(ops[ops.len() - 1] is Free));
        if count_allocs(ops) < MAX_SLOTS {
            let c = count_allocs(ops) as int;
            assert forall|i: int| 0 <= i < after.len() implies ((#[trigger] after[i]).allocated
                <==> i < c) by {
                assert(before[i].allocated <==> i < n);
            }
            assert(is_lowest_free(after, c));
            lemma_lowest_free_is(after, c);
        } else {
            assert forall|i: int| 0 <= i < after.len() implies (#[trigger] after[i]).allocated by {
                if n < MAX_SLOTS {
                    assert(before[i].allocated <==> i < n);
                } else {
                    assert(before[i].allocated);
                }
            }
            lemma_lowest_free_none(after);
        }
    }
}

/// A released slot can be issued again: the allocation that follows the
/// release of `slot` succeeds, returns `slot` or a lower one, returns `slot`
/// itself when every lower slot is taken, and the slot it returns reads
/// `PENDING`.
pub proof fn lemma_reuse_after_free(s: Seq<Slot>, slot: int)
    requires
        in_range(s, slot),
    ensures
        lowest_free(spec_free(s, slot)) matches Some(k) && k <= slot && spec_read_result(
            spec_alloc(spec_free(s, slot)),
            k,
        ) == PENDING,
        (forall|j: int| 0 <= j < slot ==> (#[trigger] s[j]).allocated) ==> lowest_free(
            spec_free(s, slot),
        ) == Some(slot),
{
    let t = spec_free(s, slot);
    lemma_lowest_free_none(t);
    assert(!t[slot].allocated);
    let k = lowest_free(t).unwrap();
    if slot < k {
        assert(t[slot].allocated);
    }
    if forall|j: int| 0 <= j < slot ==> (#[trigger] s[j]).allocated {
        assert(is_lowest_free(t, slot));
        lemma_lowest_free_is(t, slot);
    }
}

/// Whether `op` is a completion callback for `slot`.
pub open spec fn reports_to(op: Op, slot: int) -> bool {
    op matches Op::Callback(target, _) && target == slot
}

/// Until a callback fires for it, a slot reads `PENDING`: whatever calls are
/// made on a table in which `slot` reads `PENDING`, as long as none of them is
/// a callback for `slot`, it reads `PENDING` afterwards.
pub proof fn lemma_pending_until_callback(s: Seq<Slot>, ops: Seq<Op>, slot: int)
    requires
        spec_read_result(s, slot) == PENDING,
        forall|i: int| 0 <= i < ops.len() ==> !reports_to(#[trigger] ops[i], slot),
    ensures
        run(s, ops).len() == s.len(),
        spec_read_result(run(s, ops), slot) == PENDING,
    decreases ops.len(),
{
    if ops.len() > 0 {
        let before = run(s, ops.drop_last());
        assert forall|i: int| 0 <= i < ops.drop_last().len() implies !reports_to(
            #[trigger] ops.drop_last()[i],
            slot,
        ) by {
            assert(ops.drop_last()[i] == ops[i]);
        }
        lemma_pending_until_callback(s, ops.drop_last(), slot);
        lemma_step_keeps_len(before, ops.last());
        lemma_lowest_free_none(before);
        assert(!reports_to(ops[ops.len() - 1], slot));
    }
}

/// On a table that started fresh, a slot for which no callback has fired
/// reads `PENDING`.
pub proof fn lemma_fresh_pending_until_callback(ops: Seq<Op>, slot: int)
    requires
        forall|i: int| 0 <= i < ops.len() ==> !reports_to(#[trigger] ops[i], slot),
    ensures
        spec_read_result(run(fresh(), ops), slot) == PENDING,
{
    lemma_pending_until_callback(fresh(), ops, slot);
}

/// A slot reads what the last callback reported for it: after a callback
/// that reports `READY` it reads `READY`, after one that reports
/// `WAKE_AGAIN` it reads `WAKE_AGAIN`. A callback with any other code leaves
/// the table as it is.
pub proof fn lemma_read_after_callback(s: Seq<Slot>, slot: int, code: i8)
    requires
        in_range(s, slot),
    ensures
        is_report(code) ==> spec_read_result(spec_callback(s, slot, code), slot) == code,
        spec_read_result(spec_callback(s, slot, READY), slot) == READY,
        spec_read_result(spec_callback(s, slot, WAKE_AGAIN), slot) == WAKE_AGAIN,
        !is_report(code) ==> spec_callback(s, slot, code) == s,
{
}

/// After a callback that reports `WAKE_AGAIN` and a reset, the slot reads
/// `PENDING`, and it is neither released nor handed out by the two calls.
pub proof fn lemma_reset_after_wake(s: Seq<Slot>, slot: int)
    ensures
        spec_read_result(spec_reset_result(spec_callback(s, slot, WAKE_AGAIN), slot), slot)
            == PENDING,
        in_range(s, slot) ==> spec_reset_result(spec_callback(s, slot, WAKE_AGAIN), slot)[slot]
            == (Slot { allocated: s[slot].allocated, result: ResultCode::Pending }),
{
}

/// A reference outside the table reads `PENDING`, and a release, a reset, a
/// store or a callback through it changes nothing.
pub proof fn lemma_out_of_range_is_ignored(s: Seq<Slot>, slot: int, code: i8)
    requires
        !in_range(s, slot),
    ensures
        spec_read_result(s, slot) == PENDING,
        spec_free(s, slot) == s,
        spec_reset_result(s, slot) == s,
        spec_set_result(s, slot, code) == s,
        spec_callback(s, slot, code) == s,
{
}

/// The release of a slot that is free already is ignored: the table stays as
/// it is, whatever the slot's cell holds. So a second release after the first
/// changes nothing.
pub proof fn lemma_free_of_free_slot_is_ignored(s: Seq<Slot>, slot: int)
    ensures
        in_range(s, slot) && !s[slot].allocated ==> spec_free(s, slot) == s,
        spec_free(spec_free(s, slot), slot) == spec_free(s, slot),
{
}

/// A result cell holds nothing but `PENDING`, `READY` or `WAKE_AGAIN`: in
/// every table every cell reads as one of the three codes, and so does every
/// read, of a slot or of a reference outside the table.
pub proof fn lemma_every_read_is_a_code(s: Seq<Slot>)
    ensures
        holds_codes(s),
        forall|slot: int| is_code(#[trigger] spec_read_result(s, slot)),
{
    assert forall|i: int| 0 <= i < s.len() implies is_code(code_value((#[trigger] s[i]).result)) by {}
    assert forall|slot: int| is_code(#[trigger] spec_read_result(s, slot)) by {
        if in_range(s, slot) {
            assert(is_code(code_value(s[slot].result)));
        }
    }
}

/// Whatever calls are made on the fresh table, with whatever arguments, every
/// cell holds one of the three codes afterwards, and every read gives one.
pub proof fn lemma_cells_hold_codes(ops: Seq<Op>)
    ensures
        holds_codes(run(fresh(), ops)),
        forall|slot: int| is_code(#[trigger] spec_read_result(run(fresh(), ops), slot)),
{
    lemma_every_read_is_a_code(run(fresh(), ops));
}

/// A call through one slot leaves every other slot as it was, unless the call
/// is the allocation that claims that other slot.
pub proof fn lemma_slots_are_independent(s: Seq<Slot>, op: Op, other: int)
    requires
        in_range(s, other),
        match op {
            Op::Alloc => lowest_free(s) != Some(other),
            Op::Free(slot) => slot != other,
            Op::Callback(slot, _) => slot != other,
            Op::Reset(slot) => slot != other,
        },
    ensures
        step(s, op).len() == s.len(),
        step(s, op)[other] == s[other],
{
    lemma_lowest_free_none(s);
}

/// Whether `op` is a call through `slot`: its release, a callback for it, or
/// its reset.
pub open spec fn goes_through(op: Op, slot: int) -> bool {
    match op {
        Op::Alloc => false,
        Op::Free(target) => target == slot,
        Op::Callback(target, _) => target == slot,
        Op::Reset(target) => target == slot,
    }
}

/// A slot that is handed out is left alone by everything that happens
/// through other slots: after any calls of which none goes through `slot`, it
/// is still taken and reads what it read before. No allocation claims it, and
/// no callback for another slot reaches it.
pub proof fn lemma_owned_slot_is_undisturbed(s: Seq<Slot>, ops: Seq<Op>, slot: int)
    requires
        in_range(s, slot),
        s[slot].allocated,
        forall|i: int| 0 <= i < ops.len() ==> !goes_through(#[trigger] ops[i], slot),
    ensures
        run(s, ops).len() == s.len(),
        run(s, ops)[slot] == s[slot],
    decreases ops.len(),
{
    if ops.len() > 0 {
        let before = run(s, ops.drop_last());
        assert forall|i: int| 0 <= i < ops.drop_last().len() implies !goes_through(
            #[trigger] ops.drop_last()[i],
            slot,
        ) by {
            assert(ops.drop_last()[i] == ops[i]);
        }
        lemma_owned_slot_is_undisturbed(s, ops.drop_last(), slot);
        lemma_lowest_free_none(before);
        assert(!goes_through(ops[ops.len() - 1], slot));
    }
}

/// Exhaustion and recovery: on a full table an allocation fails; once `slot`
/// is released, the next allocation returns `slot`, and the one after that
/// fails again.
pub proof fn lemma_exhaustion_and_recovery(s: Seq<Slot>, slot: int)
    requires
        is_full(s),
        in_range(s, slot),
    ensures
        lowest_free(s) is None,
        spec_alloc(s) == s,
        lowest_free(spec_free(s, slot)) == Some(slot),
        is_full(spec_alloc(spec_free(s, slot))),
        lowest_free(spec_alloc(spec_free(s, slot))) is None,
{
    lemma_lowest_free_none(s);
    let t = spec_free(s, slot);
    assert forall|j: int| 0 <= j < slot implies (#[trigger] t[j]).allocated by {
        assert(s[j].allocated);
    }
    assert(is_lowest_free(t, slot));
    lemma_lowest_free_is(t, slot);
    let u = spec_alloc(t);
    assert forall|j: int| 0 <= j < u.len() implies (#[trigger] u[j]).allocated by {
        if j != slot {
            assert(s[j].allocated);
        }
    }
    lemma_lowest_free_none(u);
}

} // verus!
