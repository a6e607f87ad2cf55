use ergo_chain_sync::chain_cache::InMemoryCache;
use ergo_chain_sync::client_model::{BlockTransaction, FullBlock, Header, TxId};
use ergo_chain_sync::driver::SyncDriver;
use ergo_chain_sync::model::BlockId;
use ergo_chain_sync::sync::{ChainSync, ChainSyncNonInit, ChainUpgrade, InitChainSync};

fn bid(n: u8) -> BlockId {
    BlockId::new(vec![n; 32])
}

fn mk_tx(tag: u8) -> BlockTransaction {
    BlockTransaction {
        id: TxId { bytes: vec![tag; 32] },
        inputs: vec![],
        data_inputs: None,
        outputs: vec![],
    }
}

fn fb(height: u32, id: u8, parent: u8) -> FullBlock {
    FullBlock {
        header: Header {
            id: bid(id),
            parent_id: bid(parent),
            height,
            timestamp: 1_700_000_000_000 + height as u64,
        },
        transactions: vec![mk_tx(id), mk_tx(id.wrapping_add(100))],
    }
}

fn forward_heights(ups: &[ChainUpgrade]) -> Vec<u32> {
    ups.iter()
        .filter_map(|u| match u {
            ChainUpgrade::RollForward(b) => Some(b.height),
            ChainUpgrade::RollBackward(_) => None,
        })
        .collect()
}

fn backward_heights(ups: &[ChainUpgrade]) -> Vec<u32> {
    ups.iter()
        .filter_map(|u| match u {
            ChainUpgrade::RollBackward(b) => Some(b.height),
            ChainUpgrade::RollForward(_) => None,
        })
        .collect()
}

/// Cold start over a linked chain: six forward upgrades in order, all six
/// cached, cursor one past the last height.
#[test]
fn test_cold_start_linear() {
    let cache = InMemoryCache::new(64);
    let mut sync = ChainSync::init(100, cache, 10, 5, 1000);
    assert_eq!(sync.fetch_plan(105), Some((99, 111)));
    let batch: Vec<FullBlock> = (0..6u8).map(|i| fb(100 + i as u32, 10 + i, 9 + i)).collect();
    let ups = sync.try_upgrade(batch).expect("upgrades expected");
    assert_eq!(ups.len(), 6);
    assert_eq!(forward_heights(&ups), vec![100, 101, 102, 103, 104, 105]);
    for i in 0..6u8 {
        assert!(sync.cache.has_block(&bid(10 + i)));
    }
    assert_eq!(sync.state.next_height, 106);
}

/// A batch processed from a fixed starting height comes back as forward
/// upgrades in height sequence, each linked to the one before.
#[test]
fn test_chain_sync_batch_processing() {
    let cache = InMemoryCache::new(64);
    let non_init = ChainSyncNonInit::new(cache, 16, 8, 1000);
    let mut sync: ChainSync = non_init.init(1000);
    let batch: Vec<FullBlock> = (0..5u8).map(|i| fb(1000 + i as u32, 50 + i, 49 + i)).collect();
    let upgrades = sync.try_upgrade(batch);
    assert!(upgrades.is_some());
    let upgrades = upgrades.unwrap();
    assert!(!upgrades.is_empty());
    for (i, upgrade) in upgrades.iter().enumerate() {
        if let ChainUpgrade::RollForward(block) = upgrade {
            assert_eq!(block.height, 1000 + i as u32);
            if i > 0 {
                if let ChainUpgrade::RollForward(prev_block) = &upgrades[i - 1] {
                    assert_eq!(block.parent_id.bytes, prev_block.id.bytes);
                }
            }
        }
    }
}

fn synced_to_105() -> ChainSync {
    let cache = InMemoryCache::new(64);
    let mut sync = ChainSync::init(100, cache, 10, 5, 1000);
    let batch: Vec<FullBlock> = (0..6u8).map(|i| fb(100 + i as u32, 10 + i, 9 + i)).collect();
    sync.try_upgrade(batch).expect("setup upgrades");
    sync
}

/// Depth-one reorg: a block that does not link pops the head and ends the
/// step; the next step applies the new branch.
#[test]
fn test_reorg_depth_one() {
    let mut sync = synced_to_105();
    // The node's new branch: 105' (id 45, parent 104) and 106' on top of it.
    let step1 = sync.try_upgrade(vec![fb(106, 46, 45)]).expect("rollback expected");
    assert_eq!(step1.len(), 1);
    assert_eq!(backward_heights(&step1), vec![105]);
    assert_eq!(sync.state.next_height, 105);
    let step2 = sync
        .try_upgrade(vec![fb(105, 45, 14), fb(106, 46, 45)])
        .expect("new branch expected");
    assert_eq!(forward_heights(&step2), vec![105, 106]);
    assert_eq!(sync.state.next_height, 107);
    assert!(sync.cache.has_block(&bid(45)));
    assert!(sync.cache.has_block(&bid(46)));
}

/// Depth-three reorg: three successive steps each pop one block, then the
/// replacement branch is applied.
#[test]
fn test_reorg_depth_three() {
    let mut sync = synced_to_105();
    // New branch replacing 103..105: ids 43', 44', 45' (bytes 53, 54, 55).
    let s1 = sync.try_upgrade(vec![fb(106, 56, 55)]).expect("first rollback");
    assert_eq!(backward_heights(&s1), vec![105]);
    let s2 = sync.try_upgrade(vec![fb(105, 55, 54), fb(106, 56, 55)]).expect("second rollback");
    assert_eq!(backward_heights(&s2), vec![104]);
    let s3 = sync
        .try_upgrade(vec![fb(104, 54, 53), fb(105, 55, 54), fb(106, 56, 55)])
        .expect("third rollback");
    assert_eq!(backward_heights(&s3), vec![103]);
    assert_eq!(sync.state.next_height, 103);
    let s4 = sync
        .try_upgrade(vec![
            fb(103, 53, 12),
            fb(104, 54, 53),
            fb(105, 55, 54),
            fb(106, 56, 55),
        ])
        .expect("new branch");
    assert_eq!(forward_heights(&s4), vec![103, 104, 105, 106]);
    assert_eq!(sync.state.next_height, 107);
}

/// Tip-overrun padding: a block below the cursor inside a batch stops the
/// step; earlier upgrades are kept and the cursor does not pass the anomaly.
#[test]
fn test_tip_overrun_padding() {
    let mut sync = synced_to_105();
    let ups = sync
        .try_upgrade(vec![fb(106, 16, 15), fb(105, 99, 98), fb(107, 17, 16)])
        .expect("one upgrade");
    assert_eq!(forward_heights(&ups), vec![106]);
    assert_eq!(ups.len(), 1);
    assert_eq!(sync.state.next_height, 107);
    assert!(!sync.cache.has_block(&bid(99)));
    assert!(!sync.cache.has_block(&bid(17)));
}

/// A transient failure yields one no-progress step with a throttle delay;
/// progress afterwards clears it.
#[test]
fn test_transient_error_throttles() {
    let mut sync = synced_to_105();
    let mut driver = SyncDriver::new(500);
    // The best-height probe failed: no step is taken, no progress.
    let fire = driver.note_step(false);
    assert!(fire);
    assert_eq!(driver.take_delay(), Some(500));
    // The probe succeeds now and the chain has grown.
    assert_eq!(sync.fetch_plan(106), Some((105, 117)));
    let ups = sync.try_upgrade(vec![fb(106, 16, 15)]).expect("progress");
    assert_eq!(forward_heights(&ups), vec![106]);
    let fire_again = driver.note_step(true);
    assert!(!fire_again);
    assert_eq!(driver.take_delay(), None);
}

/// The tip-reached signal fires exactly once over repeated no-progress steps.
#[test]
fn test_tip_signal_fires_once() {
    let mut driver = SyncDriver::new(250);
    assert!(driver.note_step(false));
    assert!(!driver.note_step(false));
    assert!(!driver.note_step(true));
    assert!(!driver.note_step(false));
}

/// Tip guard: a cursor beyond the node's best height plans no fetch.
#[test]
fn test_tip_guard() {
    let sync = synced_to_105();
    assert_eq!(sync.state.next_height, 106);
    assert_eq!(sync.fetch_plan(105), None);
    assert_eq!(sync.fetch_plan(104), None);
    assert!(sync.fetch_plan(106).is_some());
}

/// Resuming with a cached head above the configured starting height starts
/// from the head; an empty cache starts from the configured height.
#[test]
fn test_resume_from_cache() {
    let primed = {
        let mut warm = ChainSync::init(200, InMemoryCache::new(64), 10, 5, 1000);
        let batch: Vec<FullBlock> = (0..8u8).map(|i| fb(200 + i as u32, 60 + i, 59 + i)).collect();
        warm.try_upgrade(batch).expect("warm-up");
        assert_eq!(warm.state.next_height, 208);
        warm.cache
    };
    let resumed = ChainSync::init(100, primed, 10, 5, 1000);
    assert_eq!(resumed.state.next_height, 207);

    let cold = ChainSync::init(100, InMemoryCache::new(64), 10, 5, 1000);
    assert_eq!(cold.state.next_height, 100);

    let mut low = InMemoryCache::new(64);
    low.append_block(ergo_chain_sync::model::Block {
        id: bid(70),
        parent_id: bid(69),
        height: 150,
        timestamp: 0,
        transactions: vec![],
    });
    let floored = ChainSync::init(200, low, 10, 5, 1000);
    assert_eq!(floored.state.next_height, 200);
}

/// Feeding the same block twice produces exactly one forward upgrade; the
/// second copy advances the cursor without emitting.
#[test]
fn test_idempotent_reapplication() {
    let cache = InMemoryCache::new(64);
    let mut sync = ChainSync::init(100, cache, 10, 5, 1000);
    let ups = sync.try_upgrade(vec![fb(100, 10, 9), fb(100, 10, 9)]).expect("one upgrade");
    assert_eq!(ups.len(), 1);
    assert_eq!(forward_heights(&ups), vec![100]);
    assert_eq!(sync.state.next_height, 102);
}

/// Cursor conservation over fresh blocks: the cursor moves by forwards minus
/// backwards.
#[test]
fn test_cursor_conservation() {
    let mut sync = synced_to_105();
    let initial = sync.state.next_height;
    // Two forwards.
    let ups = sync.try_upgrade(vec![fb(106, 16, 15), fb(107, 17, 16)]).expect("two forwards");
    let k = forward_heights(&ups).len() as u32;
    let j = backward_heights(&ups).len() as u32;
    assert_eq!(sync.state.next_height, initial + k - j);
    // One backward.
    let initial2 = sync.state.next_height;
    let ups2 = sync.try_upgrade(vec![fb(108, 88, 87)]).expect("one backward");
    let k2 = forward_heights(&ups2).len() as u32;
    let j2 = backward_heights(&ups2).len() as u32;
    assert_eq!(k2, 0);
    assert_eq!(j2, 1);
    assert_eq!(sync.state.next_height, initial2 + k2 - j2);
}

/// An empty batch makes no progress and changes nothing.
#[test]
fn test_empty_batch_no_progress() {
    let mut sync = synced_to_105();
    let before = sync.state.next_height;
    assert!(sync.try_upgrade(vec![]).is_none());
    assert_eq!(sync.state.next_height, before);
}

/// Rollback exhausting the cache: once empty, the follower re-anchors at the
/// starting height.
#[test]
fn test_reanchor_after_cache_exhausted() {
    let cache = InMemoryCache::new(64);
    let mut sync = ChainSync::init(100, cache, 10, 5, 1000);
    sync.try_upgrade(vec![fb(100, 10, 9)]).expect("anchor");
    // A foreign branch: pop the only block.
    let ups = sync.try_upgrade(vec![fb(101, 91, 90)]).expect("rollback");
    assert_eq!(backward_heights(&ups), vec![100]);
    assert_eq!(sync.state.next_height, 100);
    // The cache is empty: nothing to pop, no progress.
    assert!(sync.try_upgrade(vec![fb(101, 91, 90)]).is_none());
    // A block at the anchor height is accepted without linkage.
    let ups2 = sync.try_upgrade(vec![fb(100, 92, 90)]).expect("re-anchor");
    assert_eq!(forward_heights(&ups2), vec![100]);
}
