//! What holds of the metrics on every chain state.

use crate::chain::ChainState;
use crate::command::{spec_blocks_needed, spec_call_command, Command};
use crate::duration::{div_toward_zero, lemma_div_toward_zero_bounds};
use crate::epoch::{spec_blocks_into_epoch, spec_epoch_start};
use crate::error::MetricError;
use crate::clock::MAX_CLOCK_SECONDS;
use crate::metrics::{
    spec_avg_at_tip, spec_avg_time_to_mine, spec_block, spec_block_time, spec_guess_by_clock,
    spec_guess_time_to_mine_next_block, spec_number_of_transactions, spec_span, spec_time_to_mine,
};
use vstd::prelude::*;

verus! {

/// Above the genesis block, where a block and its predecessor are on record,
/// the time to mine the block is its timestamp less its predecessor's. The
/// difference may be negative.
pub proof fn lemma_time_to_mine_is_timestamp_difference(chain: &ChainState, height: u64)
    requires
        0 < height,
        chain.has_block(height),
        chain.has_block((height - 1) as u64),
    ensures
        spec_time_to_mine(chain, height) == Ok::<int, MetricError>(
            chain.timestamp(height) - chain.timestamp((height - 1) as u64),
        ),
{
}

/// The genesis block has no time to mine, whatever is on record.
pub proof fn lemma_genesis_has_no_time_to_mine(chain: &ChainState)
    ensures
        spec_time_to_mine(chain, 0) == Err::<int, MetricError>(MetricError::NoPredecessor),
{
}

/// Off an epoch boundary, where a block and the first block of its epoch are
/// on record, the average is the seconds between the two, divided by the
/// number of blocks between them and rounded toward zero.
pub proof fn lemma_avg_time_to_mine_is_rounded_quotient(chain: &ChainState, height: u64)
    requires
        height % 2016 != 0,
        chain.has_block(height),
        chain.has_block((height - height % 2016) as u64),
    ensures
        spec_avg_time_to_mine(chain, height) == Ok::<int, MetricError>(
            div_toward_zero(
                chain.timestamp(height) - chain.timestamp((height - height % 2016) as u64),
                height as int % 2016,
            ),
        ),
{
}

/// On an epoch boundary there is no average, whatever is on record.
pub proof fn lemma_avg_time_to_mine_fails_on_epoch_boundary(chain: &ChainState, height: u64)
    requires
        height % 2016 == 0,
    ensures
        spec_avg_time_to_mine(chain, height) == Err::<int, MetricError>(
            MetricError::EpochBoundary,
        ),
{
}

/// An average never exceeds in size the span it averages, and has its sign or
/// is zero.
pub proof fn lemma_avg_time_to_mine_within_span(chain: &ChainState, height: u64)
    requires
        spec_avg_time_to_mine(chain, height) is Ok,
    ensures
        spec_span(chain, height, spec_epoch_start(height) as u64) matches Ok(total)
            && spec_avg_time_to_mine(chain, height) matches Ok(avg) && (total >= 0 ==> 0 <= avg
            <= total) && (total <= 0 ==> total <= avg <= 0),
{
    let total = spec_span(chain, height, spec_epoch_start(height) as u64)->Ok_0;
    lemma_div_toward_zero_bounds(total, spec_blocks_into_epoch(height));
}

/// Where the block at a height is on record and its transactions can be
/// counted in 32 bits, the number of transactions is the block's count.
pub proof fn lemma_number_of_transactions_is_block_count(chain: &ChainState, height: u64)
    requires
        chain.has_block(height),
        chain.known()[height].tx_count <= u32::MAX,
    ensures
        spec_number_of_transactions(chain, height) matches Ok(n) && n
            == chain.known()[height].tx_count,
{
}

/// No block stands above a known tip: every metric asked of such a height fails,
/// and names the height unless it fails on an epoch boundary first.
pub proof fn lemma_above_tip_not_found(chain: &ChainState, height: u64)
    requires
        chain.wf(),
        chain.above_tip(height),
    ensures
        spec_block(chain, height) == Err::<crate::chain::BlockInfo, MetricError>(
            MetricError::BlockNotFound { height },
        ),
        spec_block_time(chain, height) == Err::<int, MetricError>(
            MetricError::BlockNotFound { height },
        ),
        spec_time_to_mine(chain, height) == Err::<int, MetricError>(
            MetricError::BlockNotFound { height },
        ),
        spec_number_of_transactions(chain, height) == Err::<u32, MetricError>(
            MetricError::BlockNotFound { height },
        ),
        spec_avg_time_to_mine(chain, height) == Err::<int, MetricError>(
            if height % 2016 == 0 {
                MetricError::EpochBoundary
            } else {
                MetricError::BlockNotFound { height }
            },
        ),
{
    assert(!chain.has_block(height));
}

/// A metric reads the tip and the recorded blocks and nothing else: two chain
/// states that agree on both give the same answer at every height and time,
/// and so does one state asked twice.
pub proof fn lemma_same_state_same_answer(a: &ChainState, b: &ChainState, height: u64, now: i64)
    requires
        a.tip_height() == b.tip_height(),
        a.known() == b.known(),
    ensures
        spec_block(a, height) == spec_block(b, height),
        spec_block_time(a, height) == spec_block_time(b, height),
        spec_time_to_mine(a, height) == spec_time_to_mine(b, height),
        spec_avg_time_to_mine(a, height) == spec_avg_time_to_mine(b, height),
        spec_number_of_transactions(a, height) == spec_number_of_transactions(b, height),
        spec_guess_time_to_mine_next_block(a, now) == spec_guess_time_to_mine_next_block(b, now),
        spec_guess_by_clock(a, Some(now)) == spec_guess_by_clock(b, Some(now)),
{
}

/// With a clock that reads a time from 1970 on, within the range that a clock
/// reading can hold, the estimate succeeds wherever the average does: it is
/// the average less the time since the tip, and always fits.
pub proof fn lemma_guess_by_clock_fits(chain: &ChainState, now: i64)
    requires
        0 <= now <= MAX_CLOCK_SECONDS,
        spec_avg_at_tip(chain) is Ok,
    ensures
        spec_guess_by_clock(chain, Some(now)) == Ok::<int, MetricError>(
            spec_avg_at_tip(chain)->Ok_0 - (now - chain.timestamp(chain.tip_height()->Some_0)),
        ),
{
    let tip = chain.tip_height()->Some_0;
    lemma_div_toward_zero_bounds(
        chain.timestamp(tip) - chain.timestamp(spec_epoch_start(tip) as u64),
        spec_blocks_into_epoch(tip),
    );
}

/// The estimate fails exactly as the average at the tip fails, whatever the
/// clock reads: on an epoch boundary, on a missing block, or without a tip.
pub proof fn lemma_guess_fails_as_average(chain: &ChainState, clock: Option<i64>)
    requires
        spec_avg_at_tip(chain) is Err,
    ensures
        spec_guess_by_clock(chain, clock) == spec_avg_at_tip(chain),
{
}

/// Recording a block at one height changes no answer that reads other heights
/// only.
pub proof fn lemma_other_heights_unchanged(before: &ChainState, after: &ChainState, at: u64, height: u64)
    requires
        after.known() == before.known().insert(at, after.known()[at]),
        height != at,
    ensures
        spec_block(after, height) == spec_block(before, height),
        spec_number_of_transactions(after, height) == spec_number_of_transactions(before, height),
        height != at + 1 ==> spec_time_to_mine(after, height) == spec_time_to_mine(before, height),
{
}

/// Where the blocks that a question needs cannot be named, the reason is the
/// answer, whatever is on record.
pub proof fn lemma_blocks_needed_error_is_answer(
    chain: &ChainState,
    reported: Seq<char>,
    command: Command,
    now: i64,
)
    requires
        spec_blocks_needed(command, chain.tip_height()) is Err,
    ensures
        spec_call_command(chain, reported, command, now) is Err,
        spec_call_command(chain, reported, command, now)->Err_0 == spec_blocks_needed(
            command,
            chain.tip_height(),
        )->Err_0,
{
}

/// Once the blocks that a question needs are on record, the answer no longer
/// fails for a missing block.
pub proof fn lemma_blocks_needed_suffice(
    chain: &ChainState,
    reported: Seq<char>,
    command: Command,
    now: i64,
)
    requires
        spec_blocks_needed(command, chain.tip_height()) matches Ok(heights) && forall|i: int|
            0 <= i < heights.len() ==> chain.has_block(#[trigger] heights[i]),
    ensures
        !(spec_call_command(chain, reported, command, now) matches Err(
            MetricError::BlockNotFound { .. },
        )),
{
    let heights = spec_blocks_needed(command, chain.tip_height())->Ok_0;
    match command {
        Command::Chain => {},
        Command::NumberOfTransactions { block_height } => {
            assert(chain.has_block(heights[0]));
        },
        Command::TimeToMine { block_height } => {
            assert(chain.has_block(heights[0]));
            assert(chain.has_block(heights[1]));
        },
        Command::NextBlock => {
            assert(chain.has_block(heights[0]));
            assert(chain.has_block(heights[1]));
        },
    }
}

} // verus!
