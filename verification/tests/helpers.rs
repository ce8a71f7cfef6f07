use bankai::constants::{EPOCHS_PER_SYNC_COMMITTEE, SLOTS_PER_EPOCH, SLOTS_PER_SYNC_COMMITTEE, TARGET_BATCH_SIZE};
use bankai::helpers::{
    calculate_batching_range_for_slot, calculate_slots_range_for_batch, slot_to_epoch_id,
    slot_to_sync_committee_id,
};

#[test]
fn epoch_of_slot() {
    assert_eq!(slot_to_epoch_id(0), 0);
    assert_eq!(slot_to_epoch_id(31), 0);
    assert_eq!(slot_to_epoch_id(32), 1);
    assert_eq!(slot_to_epoch_id(100), 3);
}

#[test]
fn sync_committee_of_slot() {
    assert_eq!(slot_to_sync_committee_id(8191), 0);
    assert_eq!(slot_to_sync_committee_id(8192 * 5 + 1), 5);
}

#[test]
fn committee_is_epoch_over_epochs_per_period() {
    for slot in [0u64, 1, 8191, 8192, 123_456, 9_999_999, u64::MAX] {
        assert_eq!(
            slot_to_sync_committee_id(slot),
            slot_to_epoch_id(slot) / EPOCHS_PER_SYNC_COMMITTEE
        );
    }
}

#[test]
fn batch_from_genesis_is_cut_to_target() {
    assert_eq!(calculate_slots_range_for_batch(0), (32, 1056));
}

#[test]
fn batch_near_period_end_takes_rest() {
    assert_eq!(calculate_slots_range_for_batch(8100), (8128, 8160));
    assert_eq!(calculate_slots_range_for_batch(6200), (6208, 8160));
}

#[test]
fn batch_with_just_enough_epochs_is_cut() {
    assert_eq!(calculate_slots_range_for_batch(6000), (6016, 7040));
}

#[test]
fn batch_crossing_into_next_period() {
    assert_eq!(calculate_slots_range_for_batch(8160), (8192, 9216));
}

#[test]
fn batch_at_last_epoch_is_empty() {
    assert_eq!(calculate_slots_range_for_batch(8130), (8160, 8160));
}

#[test]
fn batch_shape_on_many_slots() {
    let mut slot = 0u64;
    while slot < 40_000 {
        let (start, end) = calculate_slots_range_for_batch(slot);
        assert_eq!(start % SLOTS_PER_EPOCH, 0);
        assert!(slot < start && start <= slot + SLOTS_PER_EPOCH);
        assert_eq!(slot_to_epoch_id(start), slot_to_epoch_id(slot) + 1);
        assert!(start <= end);
        assert_eq!((end - start) % SLOTS_PER_EPOCH, 0);
        assert_eq!(start / SLOTS_PER_SYNC_COMMITTEE, end / SLOTS_PER_SYNC_COMMITTEE);
        let epochs = (end - start) / SLOTS_PER_EPOCH;
        assert!(epochs == TARGET_BATCH_SIZE || epochs < 2 * TARGET_BATCH_SIZE);
        let (b_start, b_end) = calculate_batching_range_for_slot(slot).unwrap();
        assert_eq!(b_start, start);
        assert_eq!(b_end, (slot / SLOTS_PER_SYNC_COMMITTEE + 1) * SLOTS_PER_SYNC_COMMITTEE - 32);
        if slot % SLOTS_PER_SYNC_COMMITTEE < SLOTS_PER_SYNC_COMMITTEE - SLOTS_PER_EPOCH {
            assert!(end <= b_end);
        }
        slot += 37;
    }
}

#[test]
fn batching_range_covers_rest_of_period() {
    assert_eq!(calculate_batching_range_for_slot(6200).unwrap(), (6208, 8160));
    assert_eq!(calculate_batching_range_for_slot(0).unwrap(), (32, 8160));
    assert_eq!(calculate_batching_range_for_slot(8192).unwrap(), (8224, 16352));
}

#[test]
fn batching_range_in_last_epoch_ends_in_own_period() {
    assert_eq!(calculate_batching_range_for_slot(8160).unwrap(), (8192, 8160));
    assert_eq!(calculate_batching_range_for_slot(8170).unwrap(), (8192, 8160));
    assert_eq!(calculate_batching_range_for_slot(8191).unwrap(), (8192, 8160));
}
