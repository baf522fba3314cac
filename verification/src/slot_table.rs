//! The scheduler's bounded slot table.
//!
//! The table is a `heapless::Vec` of at most [`MAX_TASKS`] slots.
//! [`slot_table`] is the sequence of slots that a table holds, and each
//! function here says what one operation of the vector does to that
//! sequence. [`slot_order`] is the comparison that puts the table in run
//! order.

use crate::scheduler::{SlotView, TaskSlot, MAX_TASKS};
use core::cmp::Ordering;
use vstd::prelude::*;

verus! {

/// `heapless::Vec`, a vector with a fixed capacity of `N` elements.
#[verifier::external_type_specification]
#[verifier::external_body]
#[verifier::reject_recursive_types(T)]
pub struct ExBoundedVec<T, const N: usize>(heapless::Vec<T, N>);

/// The slots that the table holds, in order.
pub uninterp spec fn slot_table(table: heapless::Vec<TaskSlot, MAX_TASKS>) -> Seq<TaskSlot>;

/// `first` may run no later than `second`: its priority is higher, or the
/// priorities are equal and its wake tick is no later.
pub open spec fn runs_before(first: SlotView, second: SlotView) -> bool {
    first.priority.spec_rank() > second.priority.spec_rank() || (first.priority.spec_rank()
        == second.priority.spec_rank() && first.next_run_tick <= second.next_run_tick)
}

/// The slots stand in run order: by priority descending and, within one
/// priority, by wake tick ascending.
pub open spec fn in_run_order(slots: Seq<TaskSlot>) -> bool {
    forall|i: int, j: int| 0 <= i < j < slots.len() ==> runs_before(slots[i]@, slots[j]@)
}

/// Compares two slots for the run order: `Less` when `first` must run
/// earlier, `Greater` when it must run later, `Equal` when either order will
/// do.
pub fn slot_order(first: &TaskSlot, second: &TaskSlot) -> (order: Ordering)
    ensures
        order == Ordering::Less <==> runs_before(first@, second@) && !runs_before(
            second@,
            first@,
        ),
        order == Ordering::Greater <==> runs_before(second@, first@) && !runs_before(
            first@,
            second@,
        ),
        order == Ordering::Equal <==> runs_before(first@, second@) && runs_before(
            second@,
            first@,
        ),
{
    let first_rank = first.priority().rank();
    let second_rank = second.priority().rank();
    if first_rank > second_rank {
        Ordering::Less
    } else if first_rank < second_rank {
        Ordering::Greater
    } else if first.next_run_tick() < second.next_run_tick() {
        Ordering::Less
    } else if first.next_run_tick() > second.next_run_tick() {
        Ordering::Greater
    } else {
        Ordering::Equal
    }
}

/// The run order compares any two slots, and it is transitive: it is a total
/// order on priority and wake tick, as sorting asks of its comparison.
pub proof fn lemma_run_order_is_total(a: SlotView, b: SlotView, c: SlotView)
    ensures
        runs_before(a, b) || runs_before(b, a),
        runs_before(a, b) && runs_before(b, c) ==> runs_before(a, c),
{
}

/// `heapless::Vec::new`: an empty table.
#[verifier::external_body]
pub(crate) fn table_new() -> (table: heapless::Vec<TaskSlot, MAX_TASKS>)
    ensures
        slot_table(table) == Seq::<TaskSlot>::empty(),
{
    heapless::Vec::new()
}

/// `heapless::Vec::is_full`: whether the table holds `MAX_TASKS` slots, its
/// capacity. A table that is not full holds fewer.
#[verifier::external_body]
pub(crate) fn table_is_full(table: &heapless::Vec<TaskSlot, MAX_TASKS>) -> (full: bool)
    ensures
        full == (slot_table(*table).len() == MAX_TASKS),
        !full ==> slot_table(*table).len() < MAX_TASKS,
{
    table.is_full()
}

/// `heapless::Vec::push`: appends `slot` if the table holds fewer than
/// `MAX_TASKS` slots; otherwise leaves the table as it is and hands the slot
/// back.
#[verifier::external_body]
pub(crate) fn table_push(table: &mut heapless::Vec<TaskSlot, MAX_TASKS>, slot: TaskSlot) -> (pushed:
    Result<(), TaskSlot>)
    ensures
        slot_table(*old(table)).len() < MAX_TASKS ==> pushed is Ok && slot_table(*final(table))
            == slot_table(*old(table)).push(slot),
        slot_table(*old(table)).len() >= MAX_TASKS ==> pushed is Err && pushed->Err_0 == slot
            && slot_table(*final(table)) == slot_table(*old(table)),
{
    table.push(slot)
}

/// Length of the slice that `heapless::Vec` dereferences to: the number of
/// slots in the table, never more than its capacity.
#[verifier::external_body]
pub(crate) fn table_len(table: &heapless::Vec<TaskSlot, MAX_TASKS>) -> (count: usize)
    ensures
        count == slot_table(*table).len(),
        count <= MAX_TASKS,
{
    table.len()
}

/// Mutable indexing into the slice that `heapless::Vec` dereferences to: the
/// slot at `index`. Whatever the caller makes of that slot is what the table
/// holds at `index` afterwards; the other slots stay.
#[verifier::external_body]
pub(crate) fn table_slot_mut(table: &mut heapless::Vec<TaskSlot, MAX_TASKS>, index: usize) -> (slot:
    &mut TaskSlot)
    requires
        index < slot_table(*old(table)).len(),
    ensures
        *slot == slot_table(*old(table))[index as int],
        slot_table(*final(table)) == slot_table(*old(table)).update(index as int, *final(slot)),
{
    &mut table[index]
}

/// `sort_unstable_by` on the slice that `heapless::Vec` dereferences to, with
/// [`slot_order`] as the comparison: afterwards the table holds the same
/// slots in run order. Which of two slots that compare equal comes first is
/// left open.
#[verifier::external_body]
pub(crate) fn table_sort(table: &mut heapless::Vec<TaskSlot, MAX_TASKS>)
    ensures
        slot_table(*final(table)).to_multiset() == slot_table(*old(table)).to_multiset(),
        in_run_order(slot_table(*final(table))),
{
    table.sort_unstable_by(|first, second| slot_order(first, second))
}

/// `heapless::Vec::retain` keeping the live slots: the finished slots leave,
/// the others stay in their order.
#[verifier::external_body]
pub(crate) fn table_retain_live(table: &mut heapless::Vec<TaskSlot, MAX_TASKS>)
    ensures
        slot_table(*final(table)) == slot_table(*old(table)).filter(
            |slot: TaskSlot| !slot@.finished,
        ),
{
    table.retain(|slot| slot.is_live())
}

} // verus!
