//! The metrics, each a function of a chain state and a height.

use crate::chain::{BlockInfo, ChainState};
use crate::clock::{unix_time_now, MAX_CLOCK_SECONDS};
use crate::duration::{div_toward_zero, lemma_div_toward_zero_bounds, Duration};
use crate::epoch::{blocks_into_epoch, epoch_start, spec_blocks_into_epoch, spec_epoch_start};
use crate::error::MetricError;
use vstd::prelude::*;

verus! {

/// A result in seconds, as a mathematical integer.
pub open spec fn seconds_of(r: Result<Duration, MetricError>) -> Result<int, MetricError> {
    match r {
        Ok(d) => Ok(d@),
        Err(e) => Err(e),
    }
}

/// The block at `height`, or the error that names the missing height.
pub open spec fn spec_block(chain: &ChainState, height: u64) -> Result<BlockInfo, MetricError> {
    if chain.has_block(height) {
        Ok(chain.known()[height])
    } else {
        Err(MetricError::BlockNotFound { height })
    }
}

/// The timestamp of the block at `height`, in seconds since the Unix epoch.
pub open spec fn spec_block_time(chain: &ChainState, height: u64) -> Result<int, MetricError> {
    match spec_block(chain, height) {
        Ok(block) => Ok(block.time as int),
        Err(e) => Err(e),
    }
}

/// The seconds from the block at `earlier` to the block at `later`. Where both
/// are missing, the error names `later`.
pub open spec fn spec_span(chain: &ChainState, later: u64, earlier: u64) -> Result<
    int,
    MetricError,
> {
    match (spec_block_time(chain, later), spec_block_time(chain, earlier)) {
        (Ok(t), Ok(s)) => Ok(t - s),
        (Err(e), _) => Err(e),
        (Ok(_), Err(e)) => Err(e),
    }
}

/// The seconds between the block at `height` and the one before it.
pub open spec fn spec_time_to_mine(chain: &ChainState, height: u64) -> Result<int, MetricError> {
    if height == 0 {
        Err(MetricError::NoPredecessor)
    } else {
        spec_span(chain, height, (height - 1) as u64)
    }
}

/// The average seconds per block from the first block of the epoch of
/// `height` up to `height`, rounded toward zero.
pub open spec fn spec_avg_time_to_mine(chain: &ChainState, height: u64) -> Result<
    int,
    MetricError,
> {
    if spec_blocks_into_epoch(height) == 0 {
        Err(MetricError::EpochBoundary)
    } else {
        match spec_span(chain, height, spec_epoch_start(height) as u64) {
            Ok(total) => Ok(div_toward_zero(total, spec_blocks_into_epoch(height))),
            Err(e) => Err(e),
        }
    }
}

/// The average seconds per block over the epoch of the tip, up to the tip.
pub open spec fn spec_avg_at_tip(chain: &ChainState) -> Result<int, MetricError> {
    match chain.tip_height() {
        Some(tip) => spec_avg_time_to_mine(chain, tip),
        None => Err(MetricError::TipUnknown),
    }
}

/// The seconds left at time `now` until the next block is due: the epoch's
/// average interval, less the time gone by since the tip's timestamp.
pub open spec fn spec_guess_time_to_mine_next_block(chain: &ChainState, now: i64) -> Result<
    int,
    MetricError,
> {
    match spec_avg_at_tip(chain) {
        Ok(avg) => {
            let left = avg - (now - chain.timestamp(chain.tip_height()->Some_0));
            if i64::MIN <= left <= i64::MAX {
                Ok(left)
            } else {
                Err(MetricError::TimeOutOfRange)
            }
        },
        Err(e) => Err(e),
    }
}

/// The seconds left until the next block is due, by a clock that read
/// `clock`. The average is taken first: where it fails, its error is the
/// answer whatever the clock read. A clock that could not be read is an error.
pub open spec fn spec_guess_by_clock(chain: &ChainState, clock: Option<i64>) -> Result<
    int,
    MetricError,
> {
    match (spec_avg_at_tip(chain), clock) {
        (Err(e), _) => Err(e),
        (Ok(_), None) => Err(MetricError::ClockOutOfRange),
        (Ok(_), Some(now)) => spec_guess_time_to_mine_next_block(chain, now),
    }
}

/// The number of transactions in the block at `height`, as a 32-bit count.
pub open spec fn spec_number_of_transactions(chain: &ChainState, height: u64) -> Result<
    u32,
    MetricError,
> {
    match spec_block(chain, height) {
        Ok(block) => if block.tx_count <= u32::MAX {
            Ok(block.tx_count as u32)
        } else {
            Err(MetricError::CountOutOfRange)
        },
        Err(e) => Err(e),
    }
}

/// The two heights that `time_to_mine` reads: `height` and its predecessor.
/// The genesis block has none.
pub fn blocks_for_time_to_mine(height: u64) -> (r: Result<(u64, u64), MetricError>)
    ensures
        height == 0 ==> r == Err::<(u64, u64), MetricError>(MetricError::NoPredecessor),
        height > 0 ==> r == Ok::<(u64, u64), MetricError>((height, (height - 1) as u64)),
{
    if height == 0 {
        Err(MetricError::NoPredecessor)
    } else {
        Ok((height, height - 1))
    }
}

/// The two heights that `avg_time_to_mine` reads: `height` and the first
/// block of its epoch. Where `height` is that first block there is no average.
pub fn blocks_for_avg_time_to_mine(height: u64) -> (r: Result<(u64, u64), MetricError>)
    ensures
        spec_blocks_into_epoch(height) == 0 ==> r == Err::<(u64, u64), MetricError>(
            MetricError::EpochBoundary,
        ),
        spec_blocks_into_epoch(height) != 0 ==> r == Ok::<(u64, u64), MetricError>(
            (height, spec_epoch_start(height) as u64),
        ),
{
    if blocks_into_epoch(height) == 0 {
        Err(MetricError::EpochBoundary)
    } else {
        Ok((height, epoch_start(height)))
    }
}

/// The block recorded at `block_height`.
pub fn get_block_by_height(chain: &ChainState, block_height: u64) -> (r: Result<
    BlockInfo,
    MetricError,
>)
    ensures
        r == spec_block(chain, block_height),
{
    match chain.block(block_height) {
        Some(block) => Ok(block),
        None => Err(MetricError::BlockNotFound { height: block_height }),
    }
}

/// The timestamp of the block at `block_height`, as a span since the Unix
/// epoch.
pub fn get_block_time(chain: &ChainState, block_height: u64) -> (r: Result<Duration, MetricError>)
    ensures
        seconds_of(r) == spec_block_time(chain, block_height),
{
    match get_block_by_height(chain, block_height) {
        Ok(block) => Ok(Duration::seconds(block.time as i64)),
        Err(e) => Err(e),
    }
}

/// The seconds from the block at `earlier` to the block at `later`.
fn span_between(chain: &ChainState, later: u64, earlier: u64) -> (r: Result<Duration, MetricError>)
    ensures
        seconds_of(r) == spec_span(chain, later, earlier),
{
    let t = match get_block_time(chain, later) {
        Ok(t) => t,
        Err(e) => {
            return Err(e);
        },
    };
    let s = match get_block_time(chain, earlier) {
        Ok(s) => s,
        Err(e) => {
            return Err(e);
        },
    };
    Ok(Duration::seconds(t.num_seconds() - s.num_seconds()))
}

/// The average time per block over the epoch of `block_height`, up to that
/// block. The first block of an epoch has no average: that is an error, not a
/// division by zero. A negative total, which miners' timestamps allow, gives a
/// negative average.
pub fn avg_time_to_mine(chain: &ChainState, block_height: u64) -> (r: Result<
    Duration,
    MetricError,
>)
    ensures
        seconds_of(r) == spec_avg_time_to_mine(chain, block_height),
{
    let (height, first) = match blocks_for_avg_time_to_mine(block_height) {
        Ok(pair) => pair,
        Err(e) => {
            return Err(e);
        },
    };
    let total = match span_between(chain, height, first) {
        Ok(total) => total,
        Err(e) => {
            return Err(e);
        },
    };
    let n: u64 = height - first;
    Ok(Duration::seconds(total.num_seconds() / (n as i64)))
}

/// The time it took to mine the block at `block_height`: its timestamp less
/// that of the block before it, negative where the timestamps run backwards.
pub fn time_to_mine(chain: &ChainState, block_height: u64) -> (r: Result<Duration, MetricError>)
    ensures
        seconds_of(r) == spec_time_to_mine(chain, block_height),
{
    match blocks_for_time_to_mine(block_height) {
        Ok((height, previous)) => span_between(chain, height, previous),
        Err(e) => Err(e),
    }
}

/// The average over the tip's epoch together with the tip's timestamp: what
/// an estimate needs of the chain.
fn average_and_tip_time(chain: &ChainState) -> (r: Result<(Duration, Duration), MetricError>)
    ensures
        match r {
            Ok((avg, tip_time)) => spec_avg_at_tip(chain) == Ok::<int, MetricError>(avg@)
                && tip_time@ == chain.timestamp(chain.tip_height()->Some_0) && 0 <= tip_time@
                <= u32::MAX && -(u32::MAX as int) <= avg@ <= u32::MAX,
            Err(e) => spec_avg_at_tip(chain) == Err::<int, MetricError>(e),
        },
{
    let tip = match chain.tip() {
        Some(tip) => tip,
        None => {
            return Err(MetricError::TipUnknown);
        },
    };
    let avg = match avg_time_to_mine(chain, tip) {
        Ok(avg) => avg,
        Err(e) => {
            return Err(e);
        },
    };
    let tip_time = match get_block_time(chain, tip) {
        Ok(t) => t,
        Err(e) => {
            return Err(e);
        },
    };
    proof {
        let first = spec_epoch_start(tip) as u64;
        lemma_div_toward_zero_bounds(
            chain.timestamp(tip) - chain.timestamp(first),
            spec_blocks_into_epoch(tip),
        );
    }
    Ok((avg, tip_time))
}

/// The average less the time gone by from `tip_time` to `now`.
fn time_left(avg: Duration, tip_time: Duration, now: i64) -> (r: Result<Duration, MetricError>)
    ensures
        seconds_of(r) == (if i64::MIN <= avg@ - (now - tip_time@) <= i64::MAX {
            Ok::<int, MetricError>(avg@ - (now - tip_time@))
        } else {
            Err::<int, MetricError>(MetricError::TimeOutOfRange)
        }),
{
    let left: i128 = avg.num_seconds() as i128 - (now as i128 - tip_time.num_seconds() as i128);
    if left < i64::MIN as i128 || left > i64::MAX as i128 {
        Err(MetricError::TimeOutOfRange)
    } else {
        Ok(Duration::seconds(left as i64))
    }
}

/// The time left at `now`, in seconds since the Unix epoch, until the block
/// after the tip is due. A negative result says that the block is overdue.
pub fn guess_time_to_mine_next_block_at(chain: &ChainState, now: i64) -> (r: Result<
    Duration,
    MetricError,
>)
    ensures
        seconds_of(r) == spec_guess_time_to_mine_next_block(chain, now),
{
    match average_and_tip_time(chain) {
        Ok((avg, tip_time)) => time_left(avg, tip_time, now),
        Err(e) => Err(e),
    }
}

/// The time left, by this machine's clock, until the block after the tip is
/// due. The average is taken first, and where it fails the clock is not read.
/// Otherwise the clock is read once: the result is that of
/// `guess_time_to_mine_next_block_at` at the time read, which always fits, or
/// `ClockOutOfRange` where the clock could not be read.
pub fn guess_time_to_mine_next_block(chain: &ChainState) -> (r: Result<Duration, MetricError>)
    ensures
        exists|clock: Option<i64>|
            (clock matches Some(now) ==> 0 <= now <= MAX_CLOCK_SECONDS) && seconds_of(r)
                == #[trigger] spec_guess_by_clock(chain, clock),
        spec_avg_at_tip(chain) is Err ==> seconds_of(r) == spec_avg_at_tip(chain),
        spec_avg_at_tip(chain) is Ok ==> r is Ok || r == Err::<Duration, MetricError>(
            MetricError::ClockOutOfRange,
        ),
{
    let (avg, tip_time) = match average_and_tip_time(chain) {
        Ok(pair) => pair,
        Err(e) => {
            proof {
                assert(spec_guess_by_clock(chain, None::<i64>) == Err::<int, MetricError>(e));
            }
            return Err(e);
        },
    };
    let clock = unix_time_now();
    let r = match clock {
        Some(now) => time_left(avg, tip_time, now),
        None => Err(MetricError::ClockOutOfRange),
    };
    proof {
        assert(seconds_of(r) == spec_guess_by_clock(chain, clock));
    }
    r
}

/// The number of transactions in the block at `block_height`, the coinbase
/// included. The count is 32 bits wide; a larger one is an error, never a
/// truncated number.
pub fn number_of_transactions(chain: &ChainState, block_height: u64) -> (r: Result<
    u32,
    MetricError,
>)
    ensures
        r == spec_number_of_transactions(chain, block_height),
{
    match get_block_by_height(chain, block_height) {
        Ok(block) => {
            if block.tx_count <= 0xffff_ffff {
                Ok(block.tx_count as u32)
            } else {
                Err(MetricError::CountOutOfRange)
            }
        },
        Err(e) => Err(e),
    }
}

} // verus!
