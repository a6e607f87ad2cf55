//! The chain follower: a cursor over heights, a bounded cache, and one step
//! that classifies a fetched batch into skips, forward upgrades and a
//! rollback.
//!
//! The follower never fetches by itself: the caller asks [`ChainSync::fetch_plan`]
//! what to request from the node, performs the request, and hands the batch
//! to [`ChainSync::try_upgrade`]. What that step does to the cache and the
//! cursor is pinned down, block by block, by the [`classify`] model.

use vstd::prelude::*;
use crate::chain_cache::InMemoryCache;
use crate::chain_cache::cache_append;
use crate::chain_cache::contains_id;
use crate::client_model::FullBlock;
use crate::model::Block;
use crate::model::BlockV;

verus! {

/// One unit of chain progress: apply a block, or unapply the cache head.
pub enum ChainUpgrade {
    RollForward(Block),
    RollBackward(Block),
}

/// Mathematical image of a [`ChainUpgrade`].
pub enum ChainUpgradeV {
    RollForward(BlockV),
    RollBackward(BlockV),
}

impl View for ChainUpgrade {
    type V = ChainUpgradeV;

    open spec fn view(&self) -> ChainUpgradeV {
        match self {
            ChainUpgrade::RollForward(b) => ChainUpgradeV::RollForward(b@),
            ChainUpgrade::RollBackward(b) => ChainUpgradeV::RollBackward(b@),
        }
    }
}

/// The follower's cursor: the next height to probe.
pub struct SyncState {
    pub next_height: u32,
}

impl SyncState {
    /// Advance the cursor by one height.
    pub fn upgrade(&mut self)
        requires
            old(self).next_height < u32::MAX,
        ensures
            final(self).next_height == old(self).next_height + 1,
    {
        self.next_height += 1;
    }

    /// Retreat the cursor by one height.
    pub fn downgrade(&mut self)
        requires
            old(self).next_height > 0,
        ensures
            final(self).next_height == old(self).next_height - 1,
    {
        self.next_height -= 1;
    }
}

/// What one classification pass over a batch does, block by block, to the
/// cache and the cursor, and which upgrades it emits.
///
/// `start_h` is the configured starting height (the cold-start anchor),
/// `h0` the cursor snapshot taken when the step began. A block below the
/// snapshot is tail padding from the node: the pass stops. A cached block is
/// skipped, advancing the cursor. A block whose parent is cached — or one at
/// the anchor height — is appended and emitted as a forward upgrade. Anything
/// else is divergence: the cache head is popped and emitted as a backward
/// upgrade and the pass stops, so that the next step re-probes from the new
/// cursor.
pub open spec fn classify(
    start_h: u32,
    h0: u32,
    depth: nat,
    cache: Seq<BlockV>,
    cur: int,
    batch: Seq<BlockV>,
) -> (Seq<BlockV>, int, Seq<ChainUpgradeV>)
    decreases batch.len(),
{
    if batch.len() == 0 {
        (cache, cur, Seq::<ChainUpgradeV>::empty())
    } else {
        let b = batch.first();
        if b.height < h0 {
            (cache, cur, Seq::<ChainUpgradeV>::empty())
        } else if contains_id(cache, b.id) {
            classify(start_h, h0, depth, cache, cur + 1, batch.drop_first())
        } else if contains_id(cache, b.parent_id) || b.height == start_h {
            let c2 = cache_append(cache, depth, b);
            let stepped = classify(start_h, h0, depth, c2, cur + 1, batch.drop_first());
            (stepped.0, stepped.1, seq![ChainUpgradeV::RollForward(b)] + stepped.2)
        } else if cache.len() > 0 {
            (
                cache.drop_last(),
                cur - 1,
                seq![ChainUpgradeV::RollBackward(cache.last())],
            )
        } else {
            classify(start_h, h0, depth, cache, cur, batch.drop_first())
        }
    }
}

/// The chain follower.
pub struct ChainSync {
    pub starting_height: u32,
    pub cache: InMemoryCache,
    pub state: SyncState,
    pub batch_size: u32,
    pub chunk_size: usize,
    pub throttle_ms: u64,
}

impl ChainSync {
    /// The follower is well-formed when its cache is.
    pub open spec fn wf(&self) -> bool {
        self.cache.wf()
    }

    /// The cursor's current value.
    pub open spec fn next_height(&self) -> u32 {
        self.state.next_height
    }

    /// Everything but the cache contents and the cursor is fixed
    /// configuration.
    pub open spec fn same_config(&self, other: &ChainSync) -> bool {
        &&& self.starting_height == other.starting_height
        &&& self.batch_size == other.batch_size
        &&& self.chunk_size == other.chunk_size
        &&& self.throttle_ms == other.throttle_ms
        &&& self.cache.depth() == other.cache.depth()
    }

    /// Start following: resume from the cached head if one exists, but never
    /// below the configured starting height.
    pub fn init(
        starting_height: u32,
        cache: InMemoryCache,
        batch_size: u32,
        chunk_size: usize,
        throttle_ms: u64,
    ) -> (r: ChainSync)
        ensures
            cache.wf() ==> r.wf(),
            r.cache@ == cache@,
            r.cache.depth() == cache.depth(),
            r.starting_height == starting_height,
            r.batch_size == batch_size,
            r.chunk_size == chunk_size,
            r.throttle_ms == throttle_ms,
            r.next_height() == if cache@.len() > 0 && cache@.last().height > starting_height {
                cache@.last().height
            } else {
                starting_height
            },
    {
        let start_at: u32 = match cache.get_best_block_record() {
            Some(rec) => {
                if rec.height > starting_height {
                    rec.height
                } else {
                    starting_height
                }
            },
            None => starting_height,
        };
        ChainSync {
            starting_height,
            cache,
            state: SyncState { next_height: start_at },
            batch_size,
            chunk_size,
            throttle_ms,
        }
    }

    /// Decide whether to fetch, and with which chain-slice query bounds.
    ///
    /// Returns `None` when the cursor is beyond the node's best height (the
    /// tip guard). Otherwise returns the `fromHeight` and `toHeight` query
    /// values: the window `[next_height, next_height + batch_size]` widened
    /// by one on each side, because some node versions exclude the endpoints
    /// of the slice; the classification pass filters the padding back out.
    pub fn fetch_plan(&self, best_height: u32) -> (r: Option<(u32, u32)>)
        requires
            self.next_height() >= 1,
            self.next_height() + self.batch_size + 1 <= u32::MAX,
        ensures
            r is Some <==> self.next_height() <= best_height,
            best_height < self.next_height() ==> r is None,
            r is Some ==> r == Some(
                (
                    (self.next_height() - 1) as u32,
                    (self.next_height() + self.batch_size + 1) as u32,
                ),
            ),
    {
        let h = self.state.next_height;
        if h > best_height {
            None
        } else {
            Some((h - 1, h + self.batch_size + 1))
        }
    }

    /// One classification step over a fetched batch.
    ///
    /// Returns the emitted upgrades, oldest first, or `None` when the batch
    /// produced none. The effect on the cache, the cursor and the emitted
    /// sequence is exactly [`classify`] applied to the batch.
    pub fn try_upgrade(&mut self, batch: Vec<FullBlock>) -> (r: Option<Vec<ChainUpgrade>>)
        requires
            old(self).wf(),
            old(self).next_height() >= 1,
            old(self).next_height() + batch@.len() <= u32::MAX,
        ensures
            final(self).wf(),
            old(self).same_config(&*final(self)),
            ({
                let stepped = classify(
                    old(self).starting_height,
                    old(self).next_height(),
                    old(self).cache.depth(),
                    old(self).cache@,
                    old(self).next_height() as int,
                    batch@.map_values(|fb: FullBlock| fb@),
                );
                &&& final(self).cache@ == stepped.0
                &&& final(self).next_height() as int == stepped.1
                &&& match r {
                    Some(ups) => stepped.2.len() > 0 && ups@.map_values(|u: ChainUpgrade| u@)
                        == stepped.2,
                    None => stepped.2.len() == 0,
                }
            }),
    {
        let ghost start_h = self.starting_height;
        let ghost bs0 = self.batch_size;
        let ghost cs0 = self.chunk_size;
        let ghost tm0 = self.throttle_ms;
        let ghost depth = self.cache.depth();
        let ghost c0 = self.cache@;
        let ghost n0 = self.state.next_height as int;
        let ghost bviews = batch@.map_values(|fb: FullBlock| fb@);
        let ghost full = classify(start_h, self.state.next_height, depth, c0, n0, bviews);

        let h0 = self.state.next_height;
        let mut upgrades: Vec<ChainUpgrade> = Vec::new();
        let mut stopped: bool = false;
        let mut i: usize = 0;
        proof {
            assert(bviews.skip(0) =~= bviews);
            assert(upgrades@.map_values(|u: ChainUpgrade| u@) =~= Seq::<
                ChainUpgradeV,
            >::empty());
            assert(Seq::<ChainUpgradeV>::empty() + full.2 =~= full.2);
        }
        while !stopped && i < batch.len()
            invariant
                self.wf(),
                self.starting_height == start_h,
                self.batch_size == bs0,
                self.chunk_size == cs0,
                self.throttle_ms == tm0,
                self.cache.depth() == depth,
                i <= batch@.len(),
                bviews == batch@.map_values(|fb: FullBlock| fb@),
                full == classify(start_h, h0, depth, c0, n0, bviews),
                !stopped ==> n0 <= self.state.next_height as int <= n0 + i,
                n0 + batch@.len() <= u32::MAX,
                n0 >= 1,
                stopped ==> full == (
                    self.cache@,
                    self.state.next_height as int,
                    upgrades@.map_values(|u: ChainUpgrade| u@),
                ),
                !stopped ==> ({
                    let rest = classify(
                        start_h,
                        h0,
                        depth,
                        self.cache@,
                        self.state.next_height as int,
                        bviews.skip(i as int),
                    );
                    full == (
                        rest.0,
                        rest.1,
                        upgrades@.map_values(|u: ChainUpgrade| u@) + rest.2,
                    )
                }),
            decreases batch@.len() - i, (if stopped { 0int } else { 1int }),
        {
            let ghost ci = self.cache@;
            let ghost ni = self.state.next_height as int;
            let ghost ups_i = upgrades@.map_values(|u: ChainUpgrade| u@);
            let ghost rest_i = classify(start_h, h0, depth, ci, ni, bviews.skip(i as int));
            proof {
                assert(bviews.skip(i as int).first() == bviews[i as int]);
                assert(bviews.skip(i as int).drop_first() =~= bviews.skip(i as int + 1));
                assert(bviews[i as int] == batch@[i as int]@);
            }
            let bh = batch[i].header.height;
            if bh < h0 {
                stopped = true;
                proof {
                    assert(rest_i == (ci, ni, Seq::<ChainUpgradeV>::empty()));
                    assert(ups_i + Seq::<ChainUpgradeV>::empty() =~= ups_i);
                }
            } else if self.cache.has_block(&batch[i].header.id) {
                self.state.upgrade();
                i = i + 1;
            } else {
                let linked = self.cache.has_block(&batch[i].header.parent_id);
                if linked || bh == self.starting_height {
                    let blk = Block::from(batch[i].clone());
                    self.cache.append_block(blk.clone());
                    self.state.upgrade();
                    upgrades.push(ChainUpgrade::RollForward(blk));
                    i = i + 1;
                    proof {
                        let b = bviews[i - 1];
                        let rest_n = classify(
                            start_h,
                            h0,
                            depth,
                            self.cache@,
                            self.state.next_height as int,
                            bviews.skip(i as int),
                        );
                        assert(rest_i.2 == seq![ChainUpgradeV::RollForward(b)] + rest_n.2);
                        assert(upgrades@.map_values(|u: ChainUpgrade| u@) =~= ups_i + seq![
                            ChainUpgradeV::RollForward(b),
                        ]);
                        assert(ups_i + rest_i.2 =~= (ups_i + seq![
                            ChainUpgradeV::RollForward(b),
                        ]) + rest_n.2);
                    }
                } else {
                    match self.cache.take_best_block() {
                        Some(discarded) => {
                            self.state.downgrade();
                            upgrades.push(ChainUpgrade::RollBackward(discarded));
                            stopped = true;
                            proof {
                                let b = bviews[i as int];
                                assert(rest_i == (
                                    ci.drop_last(),
                                    ni - 1,
                                    seq![ChainUpgradeV::RollBackward(ci.last())],
                                ));
                                assert(upgrades@.map_values(|u: ChainUpgrade| u@) =~= ups_i
                                    + seq![ChainUpgradeV::RollBackward(ci.last())]);
                            }
                        },
                        None => {
                            i = i + 1;
                        },
                    }
                }
            }
        }
        proof {
            if !stopped {
                assert(bviews.skip(i as int) =~= Seq::<BlockV>::empty());
                let rest = classify(
                    start_h,
                    h0,
                    depth,
                    self.cache@,
                    self.state.next_height as int,
                    bviews.skip(i as int),
                );
                assert(rest == (
                    self.cache@,
                    self.state.next_height as int,
                    Seq::<ChainUpgradeV>::empty(),
                ));
                assert(upgrades@.map_values(|u: ChainUpgrade| u@) + Seq::<
                    ChainUpgradeV,
                >::empty() =~= upgrades@.map_values(|u: ChainUpgrade| u@));
            }
        }
        if upgrades.len() > 0 {
            Some(upgrades)
        } else {
            assert(upgrades@.map_values(|u: ChainUpgrade| u@).len() == 0);
            None
        }
    }
}

/// A follower not yet anchored to a starting height.
pub struct ChainSyncNonInit {
    pub cache: InMemoryCache,
    pub batch_size: u32,
    pub chunk_size: usize,
    pub throttle_ms: u64,
}

impl ChainSyncNonInit {
    pub fn new(
        cache: InMemoryCache,
        batch_size: u32,
        chunk_size: usize,
        throttle_ms: u64,
    ) -> (r: ChainSyncNonInit)
        ensures
            r.cache@ == cache@,
            r.cache.depth() == cache.depth(),
            r.batch_size == batch_size,
            r.chunk_size == chunk_size,
            r.throttle_ms == throttle_ms,
    {
        ChainSyncNonInit { cache, batch_size, chunk_size, throttle_ms }
    }
}

/// Anchoring a pre-configured follower to a starting height.
pub trait InitChainSync<T> {
    fn init(self, starting_height: u32) -> T;
}

impl InitChainSync<ChainSync> for ChainSyncNonInit {
    fn init(self, starting_height: u32) -> ChainSync {
        ChainSync::init(
            starting_height,
            self.cache,
            self.batch_size,
            self.chunk_size,
            self.throttle_ms,
        )
    }
}

} // verus!
