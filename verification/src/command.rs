//! The questions that can be asked of a chain state, and their answers as
//! plain numbers.

use crate::chain::ChainState;
use crate::clock::MAX_CLOCK_SECONDS;
use crate::duration::{div_toward_zero, Duration};
use crate::epoch::{spec_blocks_into_epoch, spec_epoch_start};
use crate::error::MetricError;
use crate::metrics::{
    blocks_for_avg_time_to_mine, blocks_for_time_to_mine, guess_time_to_mine_next_block,
    guess_time_to_mine_next_block_at, number_of_transactions, seconds_of, spec_guess_by_clock,
    spec_guess_time_to_mine_next_block, spec_number_of_transactions, spec_time_to_mine,
    time_to_mine,
};
use crate::network::{get_chain, recognized_network, Network};
use vstd::prelude::*;

verus! {

/// A question.
#[derive(Clone, Copy, Debug, PartialEq, Eq, Structural)]
pub enum Command {
    /// Which network does the node run on?
    Chain,
    /// How long did the block at this height take to mine?
    TimeToMine { block_height: u64 },
    /// How many transactions does the block at this height hold?
    NumberOfTransactions { block_height: u64 },
    /// How long until the next block is mined?
    NextBlock,
}

/// An answer, ready to be printed.
#[derive(Clone, Copy, Debug, PartialEq, Eq, Structural)]
pub enum Report {
    /// The network.
    Chain { network: Network },
    /// A block's time to mine, in seconds and in whole minutes.
    TimeToMine { seconds: i64, minutes: i64 },
    /// A block's number of transactions.
    NumberOfTransactions { count: u32 },
    /// The time until the next block, in seconds, whole minutes and whole
    /// days; negative where the block is overdue.
    NextBlock { seconds: i64, minutes: i64, days: i64 },
}

impl Command {
    /// Whether the answer reads the height of the tip: only the time until the
    /// next block does.
    pub fn needs_tip(&self) -> (needed: bool)
        ensures
            needed == (*self == Command::NextBlock),
    {
        match self {
            Command::NextBlock => true,
            _ => false,
        }
    }
}

/// The heights of the blocks that answering `command` reads, on a chain whose
/// tip is `tip`; or the error that the answer is, whatever the blocks hold.
pub open spec fn spec_blocks_needed(command: Command, tip: Option<u64>) -> Result<
    Seq<u64>,
    MetricError,
> {
    match command {
        Command::Chain => Ok(Seq::empty()),
        Command::TimeToMine { block_height } => if block_height == 0 {
            Err(MetricError::NoPredecessor)
        } else {
            Ok(seq![block_height, (block_height - 1) as u64])
        },
        Command::NumberOfTransactions { block_height } => Ok(seq![block_height]),
        Command::NextBlock => match tip {
            None => Err(MetricError::TipUnknown),
            Some(tip) => if spec_blocks_into_epoch(tip) == 0 {
                Err(MetricError::EpochBoundary)
            } else {
                Ok(seq![tip, spec_epoch_start(tip) as u64])
            },
        },
    }
}

/// An estimate in seconds, with its whole minutes and days.
pub open spec fn spec_next_block_report(guess: Result<int, MetricError>) -> Result<
    Report,
    MetricError,
> {
    match guess {
        Ok(s) => Ok(
            Report::NextBlock {
                seconds: s as i64,
                minutes: div_toward_zero(s, 60) as i64,
                days: div_toward_zero(s, 86_400) as i64,
            },
        ),
        Err(e) => Err(e),
    }
}

/// The answer to `command` at time `now`, where the node reported its network
/// as `reported`.
pub open spec fn spec_call_command(
    chain: &ChainState,
    reported: Seq<char>,
    command: Command,
    now: i64,
) -> Result<Report, MetricError> {
    match command {
        Command::Chain => match recognized_network(reported) {
            Some(network) => Ok(Report::Chain { network }),
            None => Err(MetricError::UnknownNetwork),
        },
        Command::TimeToMine { block_height } => match spec_time_to_mine(chain, block_height) {
            Ok(s) => Ok(
                Report::TimeToMine { seconds: s as i64, minutes: div_toward_zero(s, 60) as i64 },
            ),
            Err(e) => Err(e),
        },
        Command::NumberOfTransactions { block_height } => match spec_number_of_transactions(
            chain,
            block_height,
        ) {
            Ok(count) => Ok(Report::NumberOfTransactions { count }),
            Err(e) => Err(e),
        },
        Command::NextBlock => spec_next_block_report(
            spec_guess_time_to_mine_next_block(chain, now),
        ),
    }
}

/// The heights of the blocks to look up before `command` is answered, on a
/// chain whose tip is `tip`. An error here is the answer itself: no lookup
/// can change it.
pub fn blocks_needed(command: Command, tip: Option<u64>) -> (r: Result<Vec<u64>, MetricError>)
    ensures
        match r {
            Ok(heights) => spec_blocks_needed(command, tip) == Ok::<Seq<u64>, MetricError>(
                heights@,
            ),
            Err(e) => spec_blocks_needed(command, tip) == Err::<Seq<u64>, MetricError>(e),
        },
{
    let mut heights: Vec<u64> = Vec::new();
    let pair = match command {
        Command::Chain => {
            proof {
                assert(heights@ =~= Seq::<u64>::empty());
            }
            return Ok(heights);
        },
        Command::NumberOfTransactions { block_height } => {
            heights.push(block_height);
            proof {
                assert(heights@ =~= seq![block_height]);
            }
            return Ok(heights);
        },
        Command::TimeToMine { block_height } => blocks_for_time_to_mine(block_height),
        Command::NextBlock => match tip {
            Some(tip) => blocks_for_avg_time_to_mine(tip),
            None => Err(MetricError::TipUnknown),
        },
    };
    match pair {
        Ok((height, other)) => {
            heights.push(height);
            heights.push(other);
            proof {
                assert(heights@ =~= seq![height, other]);
            }
            Ok(heights)
        },
        Err(e) => Err(e),
    }
}

/// Answers `command` from `chain` at time `now`, in seconds since the Unix
/// epoch. `reported` is the network name that the node gave; only
/// `Command::Chain` reads it, and only `Command::NextBlock` reads `now`.
pub fn call_command_at(chain: &ChainState, reported: &str, command: Command, now: i64) -> (r:
    Result<Report, MetricError>)
    ensures
        r == spec_call_command(chain, reported@, command, now),
{
    match command {
        Command::Chain => match get_chain(reported) {
            Ok(network) => Ok(Report::Chain { network }),
            Err(e) => Err(e),
        },
        Command::TimeToMine { block_height } => match time_to_mine(chain, block_height) {
            Ok(time) => Ok(
                Report::TimeToMine { seconds: time.num_seconds(), minutes: time.num_minutes() },
            ),
            Err(e) => Err(e),
        },
        Command::NumberOfTransactions { block_height } => match number_of_transactions(
            chain,
            block_height,
        ) {
            Ok(count) => Ok(Report::NumberOfTransactions { count }),
            Err(e) => Err(e),
        },
        Command::NextBlock => next_block_report(guess_time_to_mine_next_block_at(chain, now)),
    }
}

/// The estimate as a report.
fn next_block_report(guess: Result<Duration, MetricError>) -> (r: Result<Report, MetricError>)
    ensures
        r == spec_next_block_report(seconds_of(guess)),
{
    match guess {
        Ok(time) => Ok(
            Report::NextBlock {
                seconds: time.num_seconds(),
                minutes: time.num_minutes(),
                days: time.num_days(),
            },
        ),
        Err(e) => Err(e),
    }
}

/// Answers `command` from `chain`. Every answer but the time until the next
/// block is that of `call_command_at` at any time. For that one the average is
/// taken first and the clock read after it, once, as
/// `guess_time_to_mine_next_block` does.
pub fn call_command(chain: &ChainState, reported: &str, command: Command) -> (r: Result<
    Report,
    MetricError,
>)
    ensures
        command != Command::NextBlock ==> forall|now: i64|
            r == #[trigger] spec_call_command(chain, reported@, command, now),
        command == Command::NextBlock ==> exists|clock: Option<i64>|
            (clock matches Some(now) ==> 0 <= now <= MAX_CLOCK_SECONDS) && r
                == spec_next_block_report(#[trigger] spec_guess_by_clock(chain, clock)),
{
    match command {
        Command::NextBlock => {
            let guess = guess_time_to_mine_next_block(chain);
            proof {
                let clock = choose|clock: Option<i64>|
                    (clock matches Some(now) ==> 0 <= now <= MAX_CLOCK_SECONDS) && seconds_of(guess)
                        == #[trigger] spec_guess_by_clock(chain, clock);
                assert(seconds_of(guess) == spec_guess_by_clock(chain, clock));
            }
            next_block_report(guess)
        },
        _ => call_command_at(chain, reported, command, 0),
    }
}

} // verus!
