//! What a node has reported of its chain: the height of the tip, where it was
//! asked for, and the blocks that were looked up, by height.

use crate::error::MetricError;
use std::collections::HashMap;
use vstd::prelude::*;

verus! {

broadcast use vstd::std_specs::hash::group_hash_axioms;

/// What the metrics read of a block.
#[derive(Clone, Copy, Debug, PartialEq, Eq, Structural)]
pub struct BlockInfo {
    /// The header's timestamp, in seconds since the Unix epoch, as the miner
    /// reported it.
    pub time: u32,
    /// The number of transactions in the block, the coinbase included.
    pub tx_count: u64,
}

/// The tip height, if the node was asked for it, and the blocks reported so
/// far. Height 0 is the genesis block; no block stands above a known tip.
#[derive(Debug)]
pub struct ChainState {
    tip: Option<u64>,
    blocks: HashMap<u64, BlockInfo>,
}

impl ChainState {
    /// The height of the highest block that the node knows, if it was asked.
    pub closed spec fn tip_height(&self) -> Option<u64> {
        self.tip
    }

    /// The recorded blocks, by height.
    pub closed spec fn known(&self) -> Map<u64, BlockInfo> {
        self.blocks@
    }

    /// Whether a block is recorded at `height`.
    pub open spec fn has_block(&self, height: u64) -> bool {
        self.known().contains_key(height)
    }

    /// The timestamp of the block recorded at `height`.
    pub open spec fn timestamp(&self, height: u64) -> int
        recommends
            self.has_block(height),
    {
        self.known()[height].time as int
    }

    /// Whether `height` lies above the tip. Where the tip is not known, no
    /// height does.
    pub open spec fn above_tip(&self, height: u64) -> bool {
        self.tip_height() matches Some(tip) && height > tip
    }

    /// No recorded block stands above the tip. The constructors make such a
    /// state and `record_block` keeps it so.
    pub open spec fn wf(&self) -> bool {
        forall|height: u64| #[trigger] self.has_block(height) ==> !self.above_tip(height)
    }

    /// A chain whose tip is at `tip`, with no block recorded yet.
    pub fn new(tip: u64) -> (chain: ChainState)
        ensures
            chain.wf(),
            chain.tip_height() == Some(tip),
            chain.known() == Map::<u64, BlockInfo>::empty(),
    {
        ChainState { tip: Some(tip), blocks: HashMap::new() }
    }

    /// A chain whose tip the node was not asked for, with no block recorded
    /// yet.
    pub fn without_tip() -> (chain: ChainState)
        ensures
            chain.wf(),
            chain.tip_height() == None::<u64>,
            chain.known() == Map::<u64, BlockInfo>::empty(),
    {
        ChainState { tip: None, blocks: HashMap::new() }
    }

    /// The height of the highest block that the node knows, if it was asked.
    pub fn tip(&self) -> (tip: Option<u64>)
        ensures
            tip == self.tip_height(),
    {
        self.tip
    }

    /// Records the block that the node reported at `height`, in place of any
    /// recorded there before. A height above a known tip is refused and
    /// changes nothing.
    pub fn record_block(&mut self, height: u64, info: BlockInfo) -> (r: Result<(), MetricError>)
        ensures
            old(self).wf() ==> final(self).wf(),
            final(self).tip_height() == old(self).tip_height(),
            !old(self).above_tip(height) ==> r == Ok::<(), MetricError>(())
                && final(self).known() == old(self).known().insert(height, info),
            old(self).above_tip(height) ==> r == Err::<(), MetricError>(
                MetricError::BlockNotFound { height },
            ) && final(self).known() == old(self).known(),
    {
        match self.tip {
            Some(tip) => {
                if height > tip {
                    return Err(MetricError::BlockNotFound { height });
                }
            },
            None => {},
        }
        self.blocks.insert(height, info);
        proof {
            if old(self).wf() {
                assert forall|h: u64| #[trigger] self.has_block(h) implies !self.above_tip(
                    h,
                ) by {
                    if h != height {
                        assert(old(self).has_block(h));
                    }
                }
            }
        }
        Ok(())
    }

    /// The block recorded at `height`, if there is one.
    pub fn block(&self, height: u64) -> (b: Option<BlockInfo>)
        ensures
            b == (if self.has_block(height) {
                Some(self.known()[height])
            } else {
                None
            }),
    {
        match self.blocks.get(&height) {
            Some(info) => Some(*info),
            None => None,
        }
    }
}

} // verus!
