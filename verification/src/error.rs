//! The ways in which a metric can fail.

use vstd::prelude::*;

verus! {

/// Why a metric could not be computed.
#[derive(Clone, Copy, Debug, PartialEq, Eq, Structural)]
pub enum MetricError {
    /// The chain state holds no block at this height.
    BlockNotFound { height: u64 },
    /// The genesis block has no predecessor to measure against.
    NoPredecessor,
    /// The block opens its difficulty epoch, so no block of the epoch precedes
    /// it and there is nothing to average over.
    EpochBoundary,
    /// The block holds more transactions than a 32-bit count can express.
    CountOutOfRange,
    /// The node reported a network name outside the recognised set.
    UnknownNetwork,
    /// The estimate does not fit in a signed 64-bit number of seconds.
    TimeOutOfRange,
    /// The node was not asked for the height of its tip.
    TipUnknown,
    /// The machine's clock stands before 1970 or too far in the future to be
    /// read.
    ClockOutOfRange,
}

impl MetricError {
    /// The text of [`MetricError::message`], as a sequence of characters.
    pub open spec fn spec_message(&self) -> Seq<char> {
        match self {
            MetricError::BlockNotFound { .. } => "block not found at the requested height"@,
            MetricError::NoPredecessor => "the genesis block has no predecessor"@,
            MetricError::EpochBoundary => "no average is available at an epoch boundary"@,
            MetricError::CountOutOfRange => "transaction count exceeds 32 bits"@,
            MetricError::UnknownNetwork => "unrecognised network name"@,
            MetricError::TimeOutOfRange => "estimate exceeds the representable time range"@,
            MetricError::TipUnknown => "the height of the tip is not known"@,
            MetricError::ClockOutOfRange => "the system clock cannot be read as a time"@,
        }
    }

    /// A one-line, human-readable description of the error.
    pub fn message(&self) -> (m: &'static str)
        ensures
            m@ == self.spec_message(),
    {
        match self {
            MetricError::BlockNotFound { .. } => "block not found at the requested height",
            MetricError::NoPredecessor => "the genesis block has no predecessor",
            MetricError::EpochBoundary => "no average is available at an epoch boundary",
            MetricError::CountOutOfRange => "transaction count exceeds 32 bits",
            MetricError::UnknownNetwork => "unrecognised network name",
            MetricError::TimeOutOfRange => "estimate exceeds the representable time range",
            MetricError::TipUnknown => "the height of the tip is not known",
            MetricError::ClockOutOfRange => "the system clock cannot be read as a time",
        }
    }
}

} // verus!
