//! The pointer layout of a closure once its layout word has been read in the
//! way that its kind asks for, and the fields that a layout marks as pointers.

use vstd::prelude::*;
use crate::bitmap::{StgLargeBitmap, StgSmallBitmap};
use crate::info_table::StgPointerFirst;
use crate::offset::address_space;
use crate::types::{DecodeError, StgAddr, StgWord, WORD_BYTES};

verus! {

/// A pointer layout: a number of word-sized slots, each of which holds a
/// pointer or does not.
#[derive(Clone, Copy, Debug, PartialEq, Eq, Structural)]
pub enum Layout {
    /// All pointers first, then all non-pointers.
    Counts(StgPointerFirst),
    /// One bit per slot, in one word.
    SmallBitmap(StgSmallBitmap),
    /// A bitmap outside the info table.
    LargeBitmap(StgLargeBitmap),
}

impl View for Layout {
    type V = Seq<bool>;

    /// One entry per slot, in ascending order: does the slot hold a pointer?
    open spec fn view(&self) -> Seq<bool> {
        match *self {
            Layout::Counts(counts) => Seq::new(
                (counts.ptrs + counts.nptrs) as nat,
                |i: int| i < counts.ptrs,
            ),
            Layout::SmallBitmap(bitmap) => bitmap@,
            Layout::LargeBitmap(bitmap) => bitmap@,
        }
    }
}

/// The address of slot `i` of the slots that begin at `payload`.
pub open spec fn slot_address(payload: int, i: int) -> int {
    payload + WORD_BYTES * i
}

/// The addresses of the slots that hold pointers, in ascending order, where
/// the slots begin at `payload`.
pub open spec fn pointer_fields(payload: int, slots: Seq<bool>) -> Seq<StgAddr>
    decreases slots.len(),
{
    if slots.len() == 0 {
        Seq::empty()
    } else {
        let before = pointer_fields(payload, slots.drop_last());
        if slots.last() {
            before.push(slot_address(payload, slots.len() - 1) as StgAddr)
        } else {
            before
        }
    }
}

/// The pointer fields of the slots `slots` that begin at `payload`, unless
/// the slots reach beyond the address space.
pub open spec fn checked_pointer_fields(payload: int, slots: Seq<bool>) -> Result<
    Seq<StgAddr>,
    DecodeError,
> {
    if slot_address(payload, slots.len() as int) <= address_space() {
        Ok(pointer_fields(payload, slots))
    } else {
        Err(DecodeError::OutOfBounds)
    }
}

/// Is `addr` the address of a slot that holds a pointer, where the slots
/// `slots` begin at `payload`?
pub open spec fn is_pointer_field(payload: int, slots: Seq<bool>, addr: int) -> bool {
    exists|i: int| 0 <= i < slots.len() && slots[i] && addr == #[trigger] slot_address(payload, i)
}

/// The pointer fields are the addresses of exactly those slots that hold a
/// pointer, each listed once and in ascending order, as long as the slots lie
/// within the address space.
pub proof fn lemma_pointer_fields(payload: int, slots: Seq<bool>)
    requires
        0 <= payload,
        slot_address(payload, slots.len() as int) <= address_space(),
    ensures
        forall|a: StgAddr|
            pointer_fields(payload, slots).contains(a) <==> is_pointer_field(
                payload,
                slots,
                a as int,
            ),
        forall|j: int, k: int|
            0 <= j < k < pointer_fields(payload, slots).len() ==> pointer_fields(payload, slots)[j]
                < pointer_fields(payload, slots)[k],
        forall|k: int|
            0 <= k < pointer_fields(payload, slots).len() ==> payload <= #[trigger] pointer_fields(
                payload,
                slots,
            )[k] < slot_address(payload, slots.len() as int),
        pointer_fields(payload, slots).len() <= slots.len(),
    decreases slots.len(),
{
    let fields = pointer_fields(payload, slots);
    if slots.len() == 0 {
        assert forall|a: StgAddr| fields.contains(a) <==> is_pointer_field(
            payload,
            slots,
            a as int,
        ) by {}
    } else {
        let front = slots.drop_last();
        let before = pointer_fields(payload, front);
        let last = slots.len() - 1;
        lemma_pointer_fields(payload, front);
        assert forall|a: StgAddr| fields.contains(a) <==> is_pointer_field(
            payload,
            slots,
            a as int,
        ) by {
            if fields.contains(a) {
                let k = choose|k: int| 0 <= k < fields.len() && fields[k] == a;
                if k < before.len() {
                    assert(is_pointer_field(payload, front, a as int));
                }
            }
            if is_pointer_field(payload, slots, a as int) {
                let i = choose|i: int|
                    0 <= i < slots.len() && slots[i] && a as int == #[trigger] slot_address(
                        payload,
                        i,
                    );
                if i < last {
                    assert(is_pointer_field(payload, front, a as int));
                    let k = choose|k: int| 0 <= k < before.len() && before[k] == a;
                    assert(fields[k] == a);
                } else {
                    assert(fields[fields.len() - 1] == a);
                }
            }
        }
    }
}

/// Slots that hold no pointer add nothing at the end: where no slot from
/// `limit` on holds a pointer, the pointer fields are those of the first
/// `limit` slots.
pub proof fn lemma_trailing_non_pointers(payload: int, slots: Seq<bool>, limit: int)
    requires
        0 <= limit <= slots.len(),
        forall|i: int| limit <= i < slots.len() ==> !slots[i],
    ensures
        pointer_fields(payload, slots) == pointer_fields(payload, slots.take(limit)),
    decreases slots.len() - limit,
{
    if limit < slots.len() {
        let front = slots.drop_last();
        assert(front.take(limit) == slots.take(limit));
        lemma_trailing_non_pointers(payload, front, limit);
    } else {
        assert(slots.take(limit) == slots);
    }
}

/// Where all pointers come first, the pointer fields are the first `ptrs`
/// slots.
pub proof fn lemma_counts_pointer_fields(payload: int, counts: StgPointerFirst)
    ensures
        pointer_fields(payload, Layout::Counts(counts)@) == Seq::new(
            counts.ptrs as nat,
            |i: int| slot_address(payload, i) as StgAddr,
        ),
{
    lemma_counts_prefix(payload, counts.ptrs as int, counts.nptrs as int);
}

/// The pointer fields of `ptrs` pointers that `others` non-pointers follow.
proof fn lemma_counts_prefix(payload: int, ptrs: int, others: int)
    requires
        0 <= ptrs,
        0 <= others,
    ensures
        pointer_fields(payload, Seq::new((ptrs + others) as nat, |i: int| i < ptrs)) == Seq::new(
            ptrs as nat,
            |i: int| slot_address(payload, i) as StgAddr,
        ),
    decreases ptrs + others,
{
    let slots = Seq::new((ptrs + others) as nat, |i: int| i < ptrs);
    if ptrs + others > 0 {
        if others > 0 {
            assert(slots.drop_last() == Seq::new((ptrs + others - 1) as nat, |i: int| i < ptrs));
            lemma_counts_prefix(payload, ptrs, others - 1);
        } else {
            let front = Seq::new((ptrs - 1) as nat, |i: int| i < ptrs - 1);
            assert(slots.drop_last() == front);
            lemma_counts_prefix(payload, ptrs - 1, 0);
            assert(pointer_fields(payload, slots) == Seq::new(
                ptrs as nat,
                |i: int| slot_address(payload, i) as StgAddr,
            ));
        }
    } else {
        assert(Seq::new(ptrs as nat, |i: int| slot_address(payload, i) as StgAddr)
            == Seq::<StgAddr>::empty());
    }
}

impl Layout {
    /// The number of slots.
    pub fn slot_count(&self) -> (count: StgWord)
        ensures
            count == self@.len(),
    {
        match self {
            Layout::Counts(counts) => counts.ptrs as u64 + counts.nptrs as u64,
            Layout::SmallBitmap(bitmap) => bitmap.size(),
            Layout::LargeBitmap(bitmap) => bitmap.size,
        }
    }

    /// The number of slots up to the last one that can hold a pointer: after
    /// the pointers of a pair of counts only non-pointers follow.
    fn scan_limit(&self) -> (limit: StgWord)
        ensures
            limit <= self@.len(),
            forall|i: int| limit <= i < self@.len() ==> !self@[i],
    {
        match self {
            Layout::Counts(counts) => counts.ptrs as u64,
            Layout::SmallBitmap(bitmap) => bitmap.size(),
            Layout::LargeBitmap(bitmap) => bitmap.size,
        }
    }

    /// Does slot `i` hold a pointer?
    pub fn is_pointer(&self, i: StgWord) -> (pointer: bool)
        requires
            i < self@.len(),
        ensures
            pointer == self@[i as int],
    {
        match self {
            Layout::Counts(counts) => i < counts.ptrs as u64,
            Layout::SmallBitmap(bitmap) => bitmap.is_pointer(i),
            Layout::LargeBitmap(_) => true,
        }
    }

    /// The addresses of the fields that hold pointers, in ascending order,
    /// for a closure whose slots begin at `payload`.
    ///
    /// Fails with `OutOfBounds` where the slots would reach beyond the
    /// address space.
    pub fn pointer_fields(&self, payload: StgAddr) -> (r: Result<Vec<StgAddr>, DecodeError>)
        ensures
            match r {
                Ok(fields) => checked_pointer_fields(payload as int, self@) == Ok::<
                    Seq<StgAddr>,
                    DecodeError,
                >(fields@),
                Err(e) => checked_pointer_fields(payload as int, self@) == Err::<
                    Seq<StgAddr>,
                    DecodeError,
                >(e),
            },
            r matches Ok(fields) ==> {
                &&& forall|a: StgAddr|
                    fields@.contains(a) <==> is_pointer_field(payload as int, self@, a as int)
                &&& forall|j: int, k: int|
                    0 <= j < k < fields@.len() ==> fields@[j] < fields@[k]
            },
    {
        let count: u64 = self.slot_count();
        assert(WORD_BYTES * count <= 8 * u64::MAX);
        let end: u128 = payload as u128 + WORD_BYTES as u128 * count as u128;
        if end > 0x1_0000_0000_0000_0000u128 {
            return Err(DecodeError::OutOfBounds);
        }
        let limit: u64 = self.scan_limit();
        let ghost slots = self@;
        let mut fields: Vec<StgAddr> = Vec::new();
        let mut i: u64 = 0;
        while i < limit
            invariant
                i <= limit <= count,
                count == slots.len(),
                slots == self@,
                slot_address(payload as int, count as int) <= address_space(),
                fields@ == pointer_fields(payload as int, slots.take(i as int)),
            decreases limit - i,
        {
            let pointer: bool = self.is_pointer(i);
            assert(slots.take(i + 1).drop_last() == slots.take(i as int));
            if pointer {
                fields.push(payload + WORD_BYTES * i);
            }
            i = i + 1;
        }
        proof {
            lemma_trailing_non_pointers(payload as int, slots, limit as int);
            lemma_pointer_fields(payload as int, slots);
        }
        Ok(fields)
    }
}

} // verus!
