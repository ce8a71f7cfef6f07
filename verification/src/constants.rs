use vstd::prelude::*;

verus! {

/// Slots in one beacon-chain epoch (mainnet).
pub const SLOTS_PER_EPOCH: u64 = 32;

/// Slots in one sync-committee period (mainnet).
pub const SLOTS_PER_SYNC_COMMITTEE: u64 = 8192;

/// How many epochs one batch aims to hold.
pub const TARGET_BATCH_SIZE: u64 = 32;

/// Epochs in one sync-committee period (mainnet).
pub const EPOCHS_PER_SYNC_COMMITTEE: u64 = 256;

/// Limit of jobs that may be in progress at once.
pub const MAX_CONCURRENT_JOBS_IN_PROGRESS: u64 = 16;

/// Limit of concurrent trace (pie file) generations.
pub const MAX_CONCURRENT_PIE_GENERATIONS: usize = 3;

/// Limit of concurrent data-fetching jobs against the RPC.
pub const MAX_CONCURRENT_RPC_DATA_FETCH_JOBS: usize = 4;

} // verus!
