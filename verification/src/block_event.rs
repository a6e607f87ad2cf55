//! Per-block events derived from a chain upgrade.

use vstd::prelude::*;
use crate::encoding::encode_hex_lower;
use crate::encoding::hex_of;
use crate::sync::ChainUpgrade;
use crate::sync::ChainUpgradeV;

verus! {

/// A block was applied or unapplied; the event carries the block's
/// timestamp, height, hex identifier and transaction count.
pub enum BlockEvent {
    BlockApply { timestamp: u64, height: u32, id: String, num_txs: usize },
    BlockUnapply { timestamp: u64, height: u32, id: String, num_txs: usize },
}

/// Mathematical image of a [`BlockEvent`].
pub struct BlockEventV {
    pub applied: bool,
    pub timestamp: u64,
    pub height: u32,
    pub id: Seq<char>,
    pub num_txs: int,
}

impl View for BlockEvent {
    type V = BlockEventV;

    open spec fn view(&self) -> BlockEventV {
        match self {
            BlockEvent::BlockApply { timestamp, height, id, num_txs } => BlockEventV {
                applied: true,
                timestamp: *timestamp,
                height: *height,
                id: id@,
                num_txs: *num_txs as int,
            },
            BlockEvent::BlockUnapply { timestamp, height, id, num_txs } => BlockEventV {
                applied: false,
                timestamp: *timestamp,
                height: *height,
                id: id@,
                num_txs: *num_txs as int,
            },
        }
    }
}

impl BlockEvent {
    /// The event of one upgrade: a forward upgrade becomes a block-apply
    /// event, a backward one a block-unapply event.
    pub fn from(value: ChainUpgrade) -> (r: BlockEvent)
        ensures
            ({
                let b = match value@ {
                    ChainUpgradeV::RollForward(b) => b,
                    ChainUpgradeV::RollBackward(b) => b,
                };
                r@ == (BlockEventV {
                    applied: value@ is RollForward,
                    timestamp: b.timestamp,
                    height: b.height,
                    id: hex_of(b.id),
                    num_txs: b.transactions.len() as int,
                })
            }),
    {
        match value {
            ChainUpgrade::RollForward(b) => BlockEvent::BlockApply {
                timestamp: b.timestamp,
                height: b.height,
                id: encode_hex_lower(&b.id.bytes),
                num_txs: b.transactions.len(),
            },
            ChainUpgrade::RollBackward(b) => BlockEvent::BlockUnapply {
                timestamp: b.timestamp,
                height: b.height,
                id: encode_hex_lower(&b.id.bytes),
                num_txs: b.transactions.len(),
            },
        }
    }
}

} // verus!
