//! Per-transaction events derived from a chain upgrade, carrying the block
//! context.

use vstd::prelude::*;
use crate::client_model::BlockTransaction;
use crate::client_model::BlockTransactionV;
use crate::encoding::encode_hex_lower;
use crate::encoding::hex_of;
use crate::sync::ChainUpgrade;
use crate::sync::ChainUpgradeV;

verus! {

/// Something that happened to a transaction on-chain: it was applied by a
/// forward upgrade or unapplied by a backward one.
pub enum TxEvent {
    AppliedTx { timestamp: i64, tx: BlockTransaction, block_height: i32, block_id: String },
    UnappliedTx { timestamp: i64, tx: BlockTransaction, block_height: i32, block_id: String },
}

/// Mathematical image of a [`TxEvent`].
pub struct TxEventV {
    pub applied: bool,
    pub timestamp: i64,
    pub tx: BlockTransactionV,
    pub block_height: i32,
    pub block_id: Seq<char>,
}

impl View for TxEvent {
    type V = TxEventV;

    open spec fn view(&self) -> TxEventV {
        match self {
            TxEvent::AppliedTx { timestamp, tx, block_height, block_id } => TxEventV {
                applied: true,
                timestamp: *timestamp,
                tx: tx@,
                block_height: *block_height,
                block_id: block_id@,
            },
            TxEvent::UnappliedTx { timestamp, tx, block_height, block_id } => TxEventV {
                applied: false,
                timestamp: *timestamp,
                tx: tx@,
                block_height: *block_height,
                block_id: block_id@,
            },
        }
    }
}

/// A ledger-level transaction event, without block context.
pub enum LedgerTxEvent {
    AppliedTx { tx: BlockTransaction, timestamp: i64 },
    UnappliedTx(BlockTransaction),
}

/// Turn one upgrade into its per-transaction events, in block order: applied
/// events for a forward upgrade, unapplied events for a backward one, each
/// carrying the block's timestamp, height and hex identifier.
pub fn tx_events_of(upgrade: &ChainUpgrade) -> (r: Vec<TxEvent>)
    requires
        match upgrade@ {
            ChainUpgradeV::RollForward(b) => b.timestamp <= i64::MAX as u64 && b.height
                <= i32::MAX as u32,
            ChainUpgradeV::RollBackward(b) => b.timestamp <= i64::MAX as u64 && b.height
                <= i32::MAX as u32,
        },
    ensures
        ({
            let b = match upgrade@ {
                ChainUpgradeV::RollForward(b) => b,
                ChainUpgradeV::RollBackward(b) => b,
            };
            &&& r@.len() == b.transactions.len()
            &&& forall|i: int| 0 <= i < r@.len() ==> r@[i]@ == (TxEventV {
                applied: upgrade@ is RollForward,
                timestamp: b.timestamp as i64,
                tx: b.transactions[i],
                block_height: b.height as i32,
                block_id: hex_of(b.id),
            })
        }),
{
    let (applied, b): (bool, &crate::model::Block) = match upgrade {
        ChainUpgrade::RollForward(b) => (true, b),
        ChainUpgrade::RollBackward(b) => (false, b),
    };
    let id_hex = encode_hex_lower(&b.id.bytes);
    let timestamp: i64 = b.timestamp as i64;
    let block_height: i32 = b.height as i32;
    let ghost bv = b@;
    let mut r: Vec<TxEvent> = Vec::new();
    let mut i: usize = 0;
    while i < b.transactions.len()
        invariant
            i <= b.transactions@.len(),
            bv == b@,
            bv.transactions == b.transactions@.map_values(|t: BlockTransaction| t@),
            id_hex@ == hex_of(bv.id),
            timestamp == bv.timestamp as i64,
            block_height == bv.height as i32,
            r@.len() == i,
            forall|j: int| 0 <= j < i ==> r@[j]@ == (TxEventV {
                applied: applied,
                timestamp: bv.timestamp as i64,
                tx: bv.transactions[j],
                block_height: bv.height as i32,
                block_id: hex_of(bv.id),
            }),
        decreases b.transactions@.len() - i,
    {
        let tx = b.transactions[i].clone();
        let block_id = id_hex.clone();
        if applied {
            r.push(TxEvent::AppliedTx { timestamp, tx, block_height, block_id });
        } else {
            r.push(TxEvent::UnappliedTx { timestamp, tx, block_height, block_id });
        }
        i = i + 1;
    }
    r
}

} // verus!
