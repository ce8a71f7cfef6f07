use vstd::prelude::*;

use crate::constants::{SLOTS_PER_EPOCH, SLOTS_PER_SYNC_COMMITTEE, TARGET_BATCH_SIZE};
use crate::error::Error;

verus! {

/// The first slot of the epoch that follows the epoch of `slot`.
pub open spec fn next_epoch_start(slot: int) -> int {
    (slot / 32) * 32 + 32
}

/// The first slot of the epoch that closes the sync-committee period of `slot`.
pub open spec fn period_last_epoch_start(slot: int) -> int {
    (slot / 8192 + 1) * 8192 - 32
}

/// The slot range that one batch covers when it starts after `first_slot`:
/// from the next epoch boundary to the last epoch of that sync-committee
/// period, cut to `TARGET_BATCH_SIZE` epochs when the period still has at
/// least twice that many epochs left.
pub open spec fn batch_range(first_slot: int) -> (int, int) {
    let start: int = next_epoch_start(first_slot);
    let end: int = period_last_epoch_start(start);
    if (end - start) / 32 >= 2 * 32 {
        (start, start + 32 * 32)
    } else {
        (start, end)
    }
}

/// The arithmetic of a batch range starting after `first_slot` stays within `u64`.
pub open spec fn batch_range_fits(first_slot: int) -> bool {
    (next_epoch_start(first_slot) / 8192 + 1) * 8192 <= u64::MAX
}

/// Epoch that holds `slot`.
pub fn slot_to_epoch_id(slot: u64) -> (epoch: u64)
    ensures
        epoch == slot / 32,
{
    slot / SLOTS_PER_EPOCH
}

/// Sync-committee period that holds `slot`.
pub fn slot_to_sync_committee_id(slot: u64) -> (committee: u64)
    ensures
        committee == slot / 8192,
{
    slot / SLOTS_PER_SYNC_COMMITTEE
}

/// Slot range `(start_slot, end_slot)` of the next batch of epochs after `first_slot`.
pub fn calculate_slots_range_for_batch(first_slot: u64) -> (range: (u64, u64))
    requires
        batch_range_fits(first_slot as int),
    ensures
        range.0 == batch_range(first_slot as int).0,
        range.1 == batch_range(first_slot as int).1,
        range.0 % 32 == 0,
        first_slot < range.0 <= first_slot + 32,
        (range.0 + 2048) / 8192 == range.0 / 8192 ==> range.1 == range.0 + 1024,
        (range.0 + 2048) / 8192 != range.0 / 8192 ==> (range.1 + 32) % 8192 == 0 && range.1
            / 8192 == range.0 / 8192,
{
    let start_slot: u64 = (first_slot / 32) * 32 + 32;
    let term: u64 = start_slot / 0x2000;
    let mut end_slot: u64 = (term + 1) * 0x2000 - 32;
    let epoch_gap: u64 = (end_slot - start_slot) / SLOTS_PER_EPOCH;
    if epoch_gap >= TARGET_BATCH_SIZE * 2 {
        end_slot = start_slot + TARGET_BATCH_SIZE * SLOTS_PER_EPOCH;
    }
    assert(start_slot == batch_range(first_slot as int).0 && end_slot == batch_range(first_slot as int).1);
    proof {
        lemma_batch_end_rule(first_slot as int);
    }
    (start_slot, end_slot)
}

/// The arithmetic of the batching range for `slot` stays within `u64`.
pub open spec fn batching_range_fits(slot: int) -> bool {
    &&& next_epoch_start(slot) <= u64::MAX
    &&& (slot / 8192 + 1) * 8192 <= u64::MAX
}

/// The slot numbers for the sync-committee period (term) of `slot`: the first
/// slot of the next epoch, and the first slot of the last epoch of the period
/// that holds `slot`. It never fails. When `slot` lies in the last epoch of its
/// period, the first component is past the second.
pub fn calculate_batching_range_for_slot(slot: u64) -> (r: Result<(u64, u64), Error>)
    requires
        batching_range_fits(slot as int),
    ensures
        r matches Ok(range) && range.0 == next_epoch_start(slot as int) && range.1
            == period_last_epoch_start(slot as int),
        r matches Ok(range) && range.0 % 32 == 0 && slot < range.0 <= slot + 32 && (range.1 + 32)
            % 8192 == 0 && range.1 / 8192 == slot / 8192,
{
    let next_epoch_slot: u64 = (slot / 32) * 32 + 32;
    let term: u64 = slot / 0x2000;
    let terms_last_epoch_slot: u64 = (term + 1) * 0x2000 - 32;
    Ok((next_epoch_slot, terms_last_epoch_slot))
}

/// A batch starts at the first epoch boundary after `first_slot` (the next
/// epoch), stays inside one sync-committee period, ends on an epoch boundary
/// no earlier than it starts, and holds exactly `TARGET_BATCH_SIZE` epochs when
/// the period has at least twice that many left, else fewer than twice that many.
pub proof fn lemma_batch_range_shape(first_slot: int)
    requires
        0 <= first_slot,
    ensures
        ({
            let (start, end) = batch_range(first_slot);
            &&& start % 32 == 0
            &&& first_slot < start <= first_slot + 32
            &&& start / 32 == first_slot / 32 + 1
            &&& start <= end
            &&& (end - start) % 32 == 0
            &&& start / 8192 == end / 8192
            &&& (end - start) / 32 <= 2 * 32 - 1 || (end - start) / 32 == 32
            &&& (period_last_epoch_start(start) - start) / 32 >= 2 * 32 ==> (end - start) / 32 == 32
        }),
{
}

/// Where a batch ends: when the sync-committee period of its start still holds
/// at least `2 * TARGET_BATCH_SIZE` epochs from the start on (the slot
/// `2 * TARGET_BATCH_SIZE` epochs after the start is in the same period), it is
/// cut to `TARGET_BATCH_SIZE` epochs (1024 slots); otherwise it ends at the
/// first slot of the last epoch of that period, whichever period that is.
pub proof fn lemma_batch_end_rule(first_slot: int)
    requires
        0 <= first_slot,
    ensures
        ({
            let (start, end) = batch_range(first_slot);
            &&& start == first_slot - first_slot % 32 + 32
            &&& (start + 2048) / 8192 == start / 8192 ==> end == start + 1024
            &&& (start + 2048) / 8192 != start / 8192 ==> (end + 32) % 8192 == 0 && end / 8192
                == start / 8192
        }),
{
}

/// When `slot` is not in the last epoch of its sync-committee period, a batch
/// after `slot` covers a prefix of the batching range of `slot`: both start at
/// the same slot, and the batch ends no later. In the last epoch of a period
/// the batch belongs to the next period instead.
pub proof fn lemma_batch_within_batching_range(slot: int)
    requires
        0 <= slot,
        next_epoch_start(slot) / 8192 == slot / 8192,
    ensures
        batch_range(slot).0 == next_epoch_start(slot),
        next_epoch_start(slot) <= batch_range(slot).1 <= period_last_epoch_start(slot),
{
}

/// The sync-committee period of a slot is the epoch of the slot divided by
/// the number of epochs per period.
pub proof fn lemma_committee_of_epoch(slot: int)
    requires
        0 <= slot,
    ensures
        slot / 8192 == (slot / 32) / 256,
{
}

} // verus!
