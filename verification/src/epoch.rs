//! Difficulty epochs: windows of 2016 consecutive blocks that share one
//! difficulty target.

use vstd::prelude::*;

verus! {

/// The number of blocks in a difficulty epoch.
pub const EPOCH_LENGTH: u64 = 2016;

/// The epoch that the block at `height` belongs to.
pub open spec fn spec_epoch_of(height: u64) -> int {
    height as int / 2016
}

/// How many blocks of its epoch precede the block at `height`.
pub open spec fn spec_blocks_into_epoch(height: u64) -> int {
    height as int % 2016
}

/// The height of the first block of the epoch of `height`.
pub open spec fn spec_epoch_start(height: u64) -> int {
    height - height as int % 2016
}

/// The epoch that the block at `height` belongs to.
pub fn epoch_of(height: u64) -> (e: u64)
    ensures
        e == spec_epoch_of(height),
{
    height / EPOCH_LENGTH
}

/// How many blocks of its epoch precede the block at `height`.
pub fn blocks_into_epoch(height: u64) -> (n: u64)
    ensures
        n == spec_blocks_into_epoch(height),
        n < 2016,
{
    height % EPOCH_LENGTH
}

/// The height of the first block of the epoch of `height`.
pub fn epoch_start(height: u64) -> (first: u64)
    ensures
        first == spec_epoch_start(height),
        first <= height,
{
    height - height % EPOCH_LENGTH
}

/// The first block of an epoch lies in that epoch, at a multiple of the epoch
/// length, fewer than 2016 blocks below every block of the epoch; and it is its
/// own epoch's first block.
pub proof fn lemma_epoch_start(height: u64)
    ensures
        0 <= spec_epoch_start(height) <= height,
        height - spec_epoch_start(height) == spec_blocks_into_epoch(height),
        spec_epoch_start(height) == 2016 * spec_epoch_of(height),
        spec_epoch_start(height) % 2016 == 0,
        spec_epoch_of(spec_epoch_start(height) as u64) == spec_epoch_of(height),
        spec_epoch_start(spec_epoch_start(height) as u64) == spec_epoch_start(height),
{
}

} // verus!
