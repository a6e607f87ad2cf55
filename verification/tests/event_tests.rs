use ergo_chain_sync::block_event::BlockEvent;
use ergo_chain_sync::cbor::{CborBlockTransaction, CborErgoBox};
use ergo_chain_sync::chain_cache::InMemoryCache;
use ergo_chain_sync::client_model::{BlockTransaction, DataInput, ErgoBox, RegisterValue, Token, TxId};
use ergo_chain_sync::encoding::{i64_to_dec, u64_to_dec};
use ergo_chain_sync::mempool::{MempoolEvent, MempoolSyncState, MempoolUpdate, next_mempool_offset};
use ergo_chain_sync::model::{Block, BlockId};
use ergo_chain_sync::node::{chunk_ids, header_ids_body, plan_full_blocks, Error};
use ergo_chain_sync::proxy::{kafka_key, kafka_value};
use ergo_chain_sync::sync::ChainUpgrade;
use ergo_chain_sync::tx_event::{tx_events_of, TxEvent};

fn mk_box(tag: u8) -> ErgoBox {
    ErgoBox {
        box_id: vec![tag; 32],
        value: 5000,
        ergo_tree: vec![0xde, 0xad],
        assets: vec![Token { token_id: vec![tag; 32], amount: 3 }],
        additional_registers: vec![RegisterValue { num: 4, value: vec![1, 2] }],
        creation_height: 9,
        transaction_id: TxId { bytes: vec![tag; 32] },
        index: 1,
    }
}

fn mk_tx(tag: u8) -> BlockTransaction {
    BlockTransaction {
        id: TxId { bytes: vec![tag; 32] },
        inputs: vec![mk_box(tag)],
        data_inputs: Some(vec![DataInput { box_id: vec![tag; 32] }]),
        outputs: vec![mk_box(tag.wrapping_add(1))],
    }
}

fn mk_block(height: u32, id: u8, parent: u8, tx_tags: &[u8]) -> Block {
    Block {
        id: BlockId::new(vec![id; 32]),
        parent_id: BlockId::new(vec![parent; 32]),
        height,
        timestamp: 1_234_567,
        transactions: tx_tags.iter().map(|t| mk_tx(*t)).collect(),
    }
}

/// A forward upgrade becomes a block-apply event with the hex identifier.
#[test]
fn test_block_event_apply() {
    let b = mk_block(500, 0xab, 0x01, &[1, 2, 3]);
    let ev = BlockEvent::from(ChainUpgrade::RollForward(b));
    match ev {
        BlockEvent::BlockApply { timestamp, height, id, num_txs } => {
            assert_eq!(timestamp, 1_234_567);
            assert_eq!(height, 500);
            assert_eq!(id, "ab".repeat(32));
            assert_eq!(num_txs, 3);
        }
        BlockEvent::BlockUnapply { .. } => panic!("expected BlockApply"),
    }
}

/// A backward upgrade becomes a block-unapply event.
#[test]
fn test_block_event_unapply() {
    let b = mk_block(501, 0x0f, 0xab, &[]);
    let ev = BlockEvent::from(ChainUpgrade::RollBackward(b));
    match ev {
        BlockEvent::BlockUnapply { height, id, num_txs, .. } => {
            assert_eq!(height, 501);
            assert_eq!(id, "0f".repeat(32));
            assert_eq!(num_txs, 0);
        }
        BlockEvent::BlockApply { .. } => panic!("expected BlockUnapply"),
    }
}

/// Per-transaction events keep block order and carry the block context.
#[test]
fn test_tx_events_of() {
    let b = mk_block(600, 0x22, 0x21, &[7, 8]);
    let ups = ChainUpgrade::RollForward(b);
    let evs = tx_events_of(&ups);
    assert_eq!(evs.len(), 2);
    match &evs[0] {
        TxEvent::AppliedTx { timestamp, tx, block_height, block_id } => {
            assert_eq!(*timestamp, 1_234_567);
            assert_eq!(tx.id.bytes, vec![7u8; 32]);
            assert_eq!(*block_height, 600);
            assert_eq!(block_id.as_str(), "22".repeat(32));
        }
        TxEvent::UnappliedTx { .. } => panic!("expected AppliedTx"),
    }
    match &evs[1] {
        TxEvent::AppliedTx { tx, .. } => assert_eq!(tx.id.bytes, vec![8u8; 32]),
        TxEvent::UnappliedTx { .. } => panic!("expected AppliedTx"),
    }
    let back = tx_events_of(&match ups {
        ChainUpgrade::RollForward(b) => ChainUpgrade::RollBackward(b),
        other => other,
    });
    assert!(matches!(back[0], TxEvent::UnappliedTx { .. }));
}

/// Decimal rendering of unsigned and signed integers.
#[test]
fn test_decimal_rendering() {
    assert_eq!(u64_to_dec(0), "0");
    assert_eq!(u64_to_dec(7), "7");
    assert_eq!(u64_to_dec(1234567890), "1234567890");
    assert_eq!(u64_to_dec(u64::MAX), "18446744073709551615");
    assert_eq!(i64_to_dec(0), "0");
    assert_eq!(i64_to_dec(-1), "-1");
    assert_eq!(i64_to_dec(-1234567890), "-1234567890");
    assert_eq!(i64_to_dec(i64::MIN), "-9223372036854775808");
    assert_eq!(i64_to_dec(i64::MAX), "9223372036854775807");
}

/// The envelope around a serialised transaction: sorted keys, hex block
/// identifier, base64 transaction.
#[test]
fn test_kafka_envelope() {
    let ev = TxEvent::AppliedTx {
        timestamp: 42,
        tx: mk_tx(0x33),
        block_height: 700,
        block_id: "ff00".to_string(),
    };
    let value = kafka_value(&ev, &b"abc".to_vec());
    assert_eq!(
        value,
        "{\"AppliedEvent\":{\"block_id\":\"ff00\",\"height\":700,\"timestamp\":42,\"tx\":\"YWJj\"}}"
    );
    let key = kafka_key(&ev);
    assert_eq!(key, "33".repeat(32));

    let ev2 = TxEvent::UnappliedTx {
        timestamp: -5,
        tx: mk_tx(0x34),
        block_height: 701,
        block_id: "aa".to_string(),
    };
    let value2 = kafka_value(&ev2, &b"a".to_vec());
    assert_eq!(
        value2,
        "{\"UnappliedEvent\":{\"block_id\":\"aa\",\"height\":701,\"timestamp\":-5,\"tx\":\"YQ==\"}}"
    );
}

/// Base64 padding for the three remainder classes, through the mempool event.
#[test]
fn test_mempool_event_base64() {
    let tx = mk_tx(0x44);
    let upd = MempoolUpdate::TxAccepted(tx);
    let ev = MempoolEvent::try_from(&upd, &b"ab".to_vec()).unwrap();
    match ev {
        MempoolEvent::TxAccepted { tx } => assert_eq!(tx, "YWI="),
        MempoolEvent::TxWithdrawn { .. } => panic!("expected TxAccepted"),
    }
    let upd2 = MempoolUpdate::TxWithdrawn(mk_tx(0x45));
    match MempoolEvent::try_from(&upd2, &b"abcd".to_vec()).unwrap() {
        MempoolEvent::TxWithdrawn { tx, confirmed } => {
            assert_eq!(tx, "YWJjZA==");
            assert!(!confirmed);
        }
        MempoolEvent::TxAccepted { .. } => panic!("expected TxWithdrawn"),
    }
    let upd3 = MempoolUpdate::TxConfirmed(mk_tx(0x46));
    match MempoolEvent::try_from(&upd3, &b"".to_vec()).unwrap() {
        MempoolEvent::TxWithdrawn { tx, confirmed } => {
            assert_eq!(tx, "");
            assert!(confirmed);
        }
        MempoolEvent::TxAccepted { .. } => panic!("expected TxWithdrawn"),
    }
}

/// Snapshot diffing: new transactions are accepted; vanished ones are
/// confirmed when a cached block holds them, withdrawn otherwise.
#[test]
fn test_mempool_diff() {
    let mut state = MempoolSyncState::new();
    let mut cache = InMemoryCache::new(8);

    let first = state.diff(vec![mk_tx(1), mk_tx(2)], &cache);
    assert_eq!(first.len(), 2);
    assert!(matches!(&first[0], MempoolUpdate::TxAccepted(t) if t.id.bytes == vec![1u8; 32]));
    assert!(matches!(&first[1], MempoolUpdate::TxAccepted(t) if t.id.bytes == vec![2u8; 32]));

    // Transaction 1 is mined into a cached block; transaction 2 vanishes.
    cache.append_block(mk_block(10, 90, 89, &[1]));
    let second = state.diff(vec![mk_tx(3)], &cache);
    assert_eq!(second.len(), 3);
    assert!(matches!(&second[0], MempoolUpdate::TxAccepted(t) if t.id.bytes == vec![3u8; 32]));
    assert!(matches!(&second[1], MempoolUpdate::TxConfirmed(t) if t.id.bytes == vec![1u8; 32]));
    assert!(matches!(&second[2], MempoolUpdate::TxWithdrawn(t) if t.id.bytes == vec![2u8; 32]));

    // Nothing changed: no updates.
    let third = state.diff(vec![mk_tx(3)], &cache);
    assert!(third.is_empty());
}

/// Pagination of the mempool poll stops at a short page.
#[test]
fn test_mempool_pagination() {
    assert_eq!(next_mempool_offset(0, 50, 50), Some(50));
    assert_eq!(next_mempool_offset(50, 50, 49), None);
    assert_eq!(next_mempool_offset(50, 50, 0), None);
}

/// Chunking splits identifiers into full chunks plus a remainder and keeps
/// the order.
#[test]
fn test_chunk_ids() {
    let ids: Vec<BlockId> = (0..7u8).map(|i| BlockId::new(vec![i; 32])).collect();
    let chunks = chunk_ids(ids, 3);
    assert_eq!(chunks.len(), 3);
    assert_eq!(chunks[0].len(), 3);
    assert_eq!(chunks[1].len(), 3);
    assert_eq!(chunks[2].len(), 1);
    assert_eq!(chunks[0][0].bytes, vec![0u8; 32]);
    assert_eq!(chunks[1][0].bytes, vec![3u8; 32]);
    assert_eq!(chunks[2][0].bytes, vec![6u8; 32]);
}

/// An empty range is the no-block error; a non-empty one is chunked.
#[test]
fn test_plan_full_blocks() {
    assert!(matches!(plan_full_blocks(vec![], 4), Err(Error::NoBlock)));
    let ids: Vec<BlockId> = (0..2u8).map(|i| BlockId::new(vec![i; 32])).collect();
    let chunks = plan_full_blocks(ids, 4).unwrap();
    assert_eq!(chunks.len(), 1);
    assert_eq!(chunks[0].len(), 2);
}

/// The full-block request body is a JSON array of quoted hex identifiers.
#[test]
fn test_header_ids_body() {
    let ids = vec![BlockId::new(vec![0x01; 32]), BlockId::new(vec![0xef; 32])];
    let body = header_ids_body(&ids);
    let expected = format!("[\"{}\",\"{}\"]", "01".repeat(32), "ef".repeat(32));
    assert_eq!(body, expected);
    assert_eq!(header_ids_body(&vec![]), "[]");
}

/// The downstream schema hex-encodes the script and keeps every other field.
#[test]
fn test_cbor_conversions() {
    let b = mk_box(0x55);
    let cb = CborErgoBox::from(b);
    assert_eq!(cb.ergo_tree, "dead");
    assert_eq!(cb.value, 5000);
    assert_eq!(cb.box_id, vec![0x55u8; 32]);
    assert_eq!(cb.assets.len(), 1);
    assert_eq!(cb.assets[0].amount, 3);
    assert_eq!(cb.index, 1);

    let tx = mk_tx(0x56);
    let ctx = CborBlockTransaction::from(tx);
    assert_eq!(ctx.id.bytes, vec![0x56u8; 32]);
    assert_eq!(ctx.inputs.len(), 1);
    assert_eq!(ctx.outputs.len(), 1);
    assert_eq!(ctx.inputs[0].ergo_tree, "dead");
    assert_eq!(ctx.data_inputs.as_ref().unwrap().len(), 1);
}

/// Converting to the ledger form empties the proofs and drops box origins.
#[test]
fn test_to_transaction() {
    let tx = mk_tx(0x60);
    let ledger = tx.to_transaction();
    assert_eq!(ledger.inputs.len(), 1);
    assert_eq!(ledger.inputs[0].box_id, vec![0x60u8; 32]);
    assert!(ledger.inputs[0].proof.is_empty());
    assert!(ledger.inputs[0].extension.is_empty());
    assert_eq!(ledger.output_candidates.len(), 1);
    assert_eq!(ledger.output_candidates[0].value, 5000);
    assert_eq!(ledger.output_candidates[0].ergo_tree, vec![0xde, 0xad]);
    assert_eq!(ledger.output_candidates[0].creation_height, 9);
}
