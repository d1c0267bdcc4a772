//! Fixed-capacity slot table: one cell per in-flight bridged operation.
//!
//! A slot pairs an allocation flag with the result code that was last reported
//! for it. This module holds the table as its single owner sees it: every
//! operation is a function from the table before the call to the table after
//! it. The lock-free table in `shared` runs the same decisions over atomic
//! cells.

use vstd::prelude::*;

verus! {

/// Upper bound on the number of operations bridged at the same time.
pub const MAX_SLOTS: usize = 256;

/// Result code of a slot for which no completion has been reported.
pub const PENDING: i8 = -1;

/// Result code of a slot whose operation is complete.
pub const READY: i8 = 0;

/// Result code of a slot whose operation made progress and wants another poll.
pub const WAKE_AGAIN: i8 = 1;

/// What `async_helper_alloc_slot` returns when every slot is taken.
pub const NO_SLOT: i32 = -1;

/// What a result cell holds: one of three states, each with its code.
#[derive(Clone, Copy, Debug)]
pub enum ResultCode {
    /// No completion has been reported: `PENDING`.
    Pending,
    /// The operation is complete: `READY`.
    Ready,
    /// The operation made progress and wants another poll: `WAKE_AGAIN`.
    WakeAgain,
}

/// The code of a state.
pub open spec fn code_value(state: ResultCode) -> i8 {
    match state {
        ResultCode::Pending => PENDING,
        ResultCode::Ready => READY,
        ResultCode::WakeAgain => WAKE_AGAIN,
    }
}

/// The state that `code` is the code of; `None` for a code that is none of
/// the three.
pub open spec fn code_named(code: i8) -> Option<ResultCode> {
    if code == PENDING {
        Some(ResultCode::Pending)
    } else if code == READY {
        Some(ResultCode::Ready)
    } else if code == WAKE_AGAIN {
        Some(ResultCode::WakeAgain)
    } else {
        None
    }
}

impl ResultCode {
    /// The code of the state.
    pub fn value(self) -> (code: i8)
        ensures
            code == code_value(self),
            is_code(code),
    {
        match self {
            ResultCode::Pending => PENDING,
            ResultCode::Ready => READY,
            ResultCode::WakeAgain => WAKE_AGAIN,
        }
    }

    /// The state that `code` is the code of; `None` for a code that is none
    /// of the three.
    pub fn named(code: i8) -> (state: Option<ResultCode>)
        ensures
            state == code_named(code),
            state is Some <==> is_code(code),
            state matches Some(named) ==> code_value(named) == code,
    {
        if code == PENDING {
            Some(ResultCode::Pending)
        } else if code == READY {
            Some(ResultCode::Ready)
        } else if code == WAKE_AGAIN {
            Some(ResultCode::WakeAgain)
        } else {
            None
        }
    }
}

/// One cell of the table.
#[derive(Clone, Copy, Debug)]
pub struct Slot {
    /// Whether the slot is handed out.
    pub allocated: bool,
    /// What was last stored for the slot.
    pub result: ResultCode,
}

/// A slot that nobody owns: free, with no result reported.
pub open spec fn vacant() -> Slot {
    Slot { allocated: false, result: ResultCode::Pending }
}

/// A slot as an allocation hands it out: taken, with no result reported.
pub open spec fn claimed() -> Slot {
    Slot { allocated: true, result: ResultCode::Pending }
}

/// The table in which every slot is vacant.
pub open spec fn fresh() -> Seq<Slot> {
    Seq::new(MAX_SLOTS as nat, |i: int| vacant())
}

/// Whether `slot` names a cell of `s`.
pub open spec fn in_range(s: Seq<Slot>, slot: int) -> bool {
    0 <= slot < s.len()
}

/// Whether `k` is free in `s` while every slot below it is taken.
pub open spec fn is_lowest_free(s: Seq<Slot>, k: int) -> bool {
    &&& in_range(s, k)
    &&& !s[k].allocated
    &&& forall|j: int| 0 <= j < k ==> (#[trigger] s[j]).allocated
}

/// Whether every slot of `s` is taken.
pub open spec fn is_full(s: Seq<Slot>) -> bool {
    forall|j: int| 0 <= j < s.len() ==> (#[trigger] s[j]).allocated
}

/// The slot that the next allocation claims, if there is one.
pub open spec fn lowest_free(s: Seq<Slot>) -> Option<int> {
    if exists|k: int| is_lowest_free(s, k) {
        Some(choose|k: int| is_lowest_free(s, k))
    } else {
        None
    }
}

/// The table after an allocation.
pub open spec fn spec_alloc(s: Seq<Slot>) -> Seq<Slot> {
    match lowest_free(s) {
        Some(k) => s.update(k, claimed()),
        None => s,
    }
}

/// Whether `code` is one of the three codes that a result cell holds.
pub open spec fn is_code(code: i8) -> bool {
    code == PENDING || code == READY || code == WAKE_AGAIN
}

/// Whether `code` is one of the two codes that a completion callback reports.
pub open spec fn is_report(code: i8) -> bool {
    code == READY || code == WAKE_AGAIN
}

/// Whether every cell of `s` reads as one of the three codes.
pub open spec fn holds_codes(s: Seq<Slot>) -> bool {
    forall|i: int| 0 <= i < s.len() ==> is_code(code_value((#[trigger] s[i]).result))
}

/// The table after the release of `slot`: the slot free and its result
/// rearmed. The table stays as it is where `slot` names no slot, and where
/// the slot is free already.
pub open spec fn spec_free(s: Seq<Slot>, slot: int) -> Seq<Slot> {
    if in_range(s, slot) && s[slot].allocated {
        s.update(slot, vacant())
    } else {
        s
    }
}

/// The table after `code` is stored for `slot`, whether or not the slot is
/// handed out. The table stays as it is where `slot` names no slot, and
/// where `code` is none of the three codes.
pub open spec fn spec_set_result(s: Seq<Slot>, slot: int, code: i8) -> Seq<Slot> {
    match code_named(code) {
        Some(state) => if in_range(s, slot) {
            s.update(slot, Slot { allocated: s[slot].allocated, result: state })
        } else {
            s
        },
        None => s,
    }
}

/// The table after a completion callback for `slot` that reports `code`: the
/// code stored where it is `READY` or `WAKE_AGAIN`. A callback with any other
/// code is ignored, as is one for a `slot` that names no slot.
pub open spec fn spec_callback(s: Seq<Slot>, slot: int, code: i8) -> Seq<Slot> {
    if is_report(code) {
        spec_set_result(s, slot, code)
    } else {
        s
    }
}

/// The table after the result of `slot` is rearmed.
pub open spec fn spec_reset_result(s: Seq<Slot>, slot: int) -> Seq<Slot> {
    spec_set_result(s, slot, PENDING)
}

/// The code that a read of `slot` yields.
pub open spec fn spec_read_result(s: Seq<Slot>, slot: int) -> i8 {
    if in_range(s, slot) {
        code_value(s[slot].result)
    } else {
        PENDING
    }
}

/// At most one slot is the lowest free one.
pub proof fn lemma_lowest_free_unique(s: Seq<Slot>, a: int, b: int)
    requires
        is_lowest_free(s, a),
        is_lowest_free(s, b),
    ensures
        a == b,
{
    if a < b {
        assert(s[a].allocated);
    } else if b < a {
        assert(s[b].allocated);
    }
}

/// `lowest_free` is `Some(k)` exactly for the lowest free slot `k`.
pub proof fn lemma_lowest_free_is(s: Seq<Slot>, k: int)
    requires
        is_lowest_free(s, k),
    ensures
        lowest_free(s) == Some(k),
{
    let c = choose|c: int| is_lowest_free(s, c);
    lemma_lowest_free_unique(s, c, k);
}

/// `lowest_free` is `None` exactly when the table is full.
pub proof fn lemma_lowest_free_none(s: Seq<Slot>)
    ensures
        lowest_free(s) is None <==> is_full(s),
        lowest_free(s) matches Some(k) ==> is_lowest_free(s, k),
{
    if is_full(s) {
        assert forall|k: int| !is_lowest_free(s, k) by {
            if in_range(s, k) {
                assert(s[k].allocated);
            }
        }
    } else {
        let w = choose|j: int| 0 <= j < s.len() && !(#[trigger] s[j]).allocated;
        lemma_some_lowest_free(s, w);
    }
}

/// A free slot `w` is witness that some slot at or below it is the lowest free one.
proof fn lemma_some_lowest_free(s: Seq<Slot>, w: int)
    requires
        in_range(s, w),
        !s[w].allocated,
    ensures
        exists|k: int| 0 <= k <= w && is_lowest_free(s, k),
    decreases w,
{
    if exists|j: int| 0 <= j < w && !(#[trigger] s[j]).allocated {
        let j = choose|j: int| 0 <= j < w && !(#[trigger] s[j]).allocated;
        lemma_some_lowest_free(s, j);
    } else {
        assert(is_lowest_free(s, w));
    }
}

/// The slot table as its single owner sees it.
pub struct SlotTable {
    cells: Vec<Slot>,
}

impl View for SlotTable {
    type V = Seq<Slot>;

    closed spec fn view(&self) -> Seq<Slot> {
        self.cells@
    }
}

impl SlotTable {
    /// Every table has exactly `MAX_SLOTS` cells.
    #[verifier::type_invariant]
    pub open spec fn well_formed(&self) -> bool {
        self@.len() == MAX_SLOTS
    }

    /// The number of slots, which is `MAX_SLOTS` for every table.
    pub fn capacity(&self) -> (n: usize)
        ensures
            n == MAX_SLOTS,
            self@.len() == MAX_SLOTS,
    {
        proof {
            use_type_invariant(self);
        }
        MAX_SLOTS
    }

    /// A table in which every slot is vacant.
    pub fn new() -> (table: SlotTable)
        ensures
            table@ == fresh(),
    {
        let mut cells: Vec<Slot> = Vec::new();
        let mut i: usize = 0;
        while i < MAX_SLOTS
            invariant
                i <= MAX_SLOTS,
                cells@.len() == i,
                forall|j: int| 0 <= j < i ==> cells@[j] == vacant(),
            decreases MAX_SLOTS - i,
        {
            cells.push(Slot { allocated: false, result: ResultCode::Pending });
            i = i + 1;
        }
        assert(cells@ =~= fresh());
        SlotTable { cells }
    }

    /// Claims the lowest free slot and forces its result to `PENDING`; `None`,
    /// with the table unchanged, when every slot is taken.
    pub fn alloc_slot(&mut self) -> (r: Option<usize>)
        ensures
            final(self)@ == spec_alloc(old(self)@),
            match r {
                Some(k) => lowest_free(old(self)@) == Some(k as int),
                None => lowest_free(old(self)@) is None,
            },
            match r {
                Some(k) => is_lowest_free(old(self)@, k as int) && final(self)@ == old(self)@.update(
                    k as int,
                    claimed(),
                ),
                None => is_full(old(self)@) && final(self)@ == old(self)@,
            },
    {
        proof {
            use_type_invariant(&*self);
        }
        let mut i: usize = 0;
        while i < MAX_SLOTS
            invariant
                i <= MAX_SLOTS,
                self.cells@.len() == MAX_SLOTS,
                self.cells@ == old(self).cells@,
                forall|j: int| 0 <= j < i ==> (#[trigger] self.cells@[j]).allocated,
            decreases MAX_SLOTS - i,
        {
            if !self.cells[i].allocated {
                proof {
                    lemma_lowest_free_is(self.cells@, i as int);
                }
                self.cells[i] = Slot { allocated: true, result: ResultCode::Pending };
                return Some(i);
            }
            i = i + 1;
        }
        proof {
            lemma_lowest_free_none(self.cells@);
        }
        None
    }

    /// Releases `slot` and rearms its result. An index outside the table is
    /// ignored, and so is the release of a slot that is free already: its
    /// result stays as it is.
    pub fn free(&mut self, slot: usize)
        ensures
            final(self)@ == spec_free(old(self)@, slot as int),
    {
        proof {
            use_type_invariant(&*self);
        }
        if slot < MAX_SLOTS && self.cells[slot].allocated {
            self.cells[slot] = Slot { allocated: false, result: ResultCode::Pending };
        }
    }

    /// Stores `code` as the result of `slot`, whether or not the slot is
    /// handed out. An index outside the table is ignored, and so is a code
    /// that is none of `PENDING`, `READY` and `WAKE_AGAIN`.
    pub fn set_result(&mut self, slot: usize, code: i8)
        ensures
            final(self)@ == spec_set_result(old(self)@, slot as int, code),
    {
        proof {
            use_type_invariant(&*self);
        }
        match ResultCode::named(code) {
            Some(state) => {
                if slot < MAX_SLOTS {
                    let allocated = self.cells[slot].allocated;
                    self.cells[slot] = Slot { allocated, result: state };
                }
            },
            None => {},
        }
    }

    /// Takes a completion callback for `slot`: stores `code` where it is
    /// `READY` or `WAKE_AGAIN`, whether or not the slot is handed out. A
    /// callback with any other code is ignored, and so is one for an index
    /// outside the table.
    pub fn callback(&mut self, slot: usize, code: i8)
        ensures
            final(self)@ == spec_callback(old(self)@, slot as int, code),
    {
        if code == READY || code == WAKE_AGAIN {
            self.set_result(slot, code);
        }
    }

    /// The result last stored for `slot`, which is one of `PENDING`, `READY`
    /// and `WAKE_AGAIN`; `PENDING` for an index outside the table.
    pub fn read_result(&self, slot: usize) -> (code: i8)
        ensures
            code == spec_read_result(self@, slot as int),
            is_code(code),
    {
        proof {
            use_type_invariant(self);
        }
        if slot < MAX_SLOTS {
            self.cells[slot].result.value()
        } else {
            PENDING
        }
    }

    /// Rearms the result of `slot` to `PENDING` without releasing the slot.
    pub fn reset_result(&mut self, slot: usize)
        ensures
            final(self)@ == spec_reset_result(old(self)@, slot as int),
    {
        self.set_result(slot, PENDING);
    }

    /// Whether `slot` is handed out; `false` for an index outside the table.
    pub fn is_allocated(&self, slot: usize) -> (b: bool)
        ensures
            b == (in_range(self@, slot as int) && self@[slot as int].allocated),
    {
        proof {
            use_type_invariant(self);
        }
        slot < MAX_SLOTS && self.cells[slot].allocated
    }
}

} // verus!
