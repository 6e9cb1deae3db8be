//! Derived metrics over the blocks that a Bitcoin node has reported: the
//! interval between consecutive blocks, the average interval over the current
//! difficulty epoch, an estimate of the time left until the next block, the
//! number of transactions in a block, and the network a node runs on.
//!
//! The library never talks to a node itself. A caller records what the node
//! answered in a [`chain::ChainState`] and asks the functions of [`metrics`]
//! about it; [`command::blocks_needed`] tells which blocks a question reads.

pub mod chain;
pub mod clock;
pub mod command;
pub mod duration;
pub mod epoch;
pub mod error;
pub mod laws;
pub mod metrics;
pub mod network;

pub use chain::{BlockInfo, ChainState};
pub use command::{blocks_needed, call_command, call_command_at, Command, Report};
pub use duration::Duration;
pub use error::MetricError;
pub use metrics::{
    avg_time_to_mine, get_block_by_height, get_block_time, guess_time_to_mine_next_block,
    guess_time_to_mine_next_block_at, number_of_transactions, time_to_mine,
};
pub use network::{get_chain, Network};
