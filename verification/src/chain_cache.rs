//! Bounded in-memory log of recently seen blocks.
//!
//! Blocks sit in ascending height order; whenever two neighbours sit at
//! consecutive heights they are parent-linked; identifiers are unique; and at
//! most `max_rollback_depth` blocks are retained, the oldest evicted first.
//! `append_block` refuses a block that would contradict this shape, so the
//! invariant holds for every reachable cache.

use vstd::prelude::*;
use crate::model::Block;
use crate::model::BlockId;
use crate::model::BlockV;
use crate::model::bytes_eq;

verus! {

/// Does the cached sequence hold a block with this identifier?
pub open spec fn contains_id(s: Seq<BlockV>, id: Seq<u8>) -> bool {
    exists|i: int| 0 <= i < s.len() && s[i].id == id
}

/// Does some cached block contain a transaction with this identifier?
pub open spec fn contains_tx(s: Seq<BlockV>, tx_id: Seq<u8>) -> bool {
    exists|i: int, j: int|
        0 <= i < s.len() && 0 <= j < s[i].transactions.len() && s[i].transactions[j].id == tx_id
}

/// The cache's shape: heights strictly ascending, neighbours at consecutive
/// heights parent-linked, identifiers unique.
pub open spec fn cache_shape(s: Seq<BlockV>) -> bool {
    &&& forall|i: int, j: int| 0 <= i < j < s.len() ==> s[i].height < s[j].height
    &&& forall|i: int|
        0 <= i < s.len() - 1 && s[i + 1].height == s[i].height + 1 ==> s[i + 1].parent_id == s[i].id
    &&& forall|i: int, j: int| 0 <= i < j < s.len() ==> s[i].id != s[j].id
}

/// Whether this block may be pushed onto the end of the cached sequence
/// without breaking the cache's shape.
pub open spec fn can_extend(s: Seq<BlockV>, b: BlockV) -> bool {
    s.len() == 0 || (b.height > s.last().height && (b.height != s.last().height + 1
        || b.parent_id == s.last().id))
}

/// What appending one block does to the cached sequence: a no-op when the
/// identifier is already present or the block would break the cache's shape;
/// otherwise a push, with the oldest block evicted once the depth is
/// exceeded.
pub open spec fn cache_append(s: Seq<BlockV>, depth: nat, b: BlockV) -> Seq<BlockV> {
    if contains_id(s, b.id) {
        s
    } else if can_extend(s, b) {
        let s2 = s.push(b);
        if s2.len() > depth {
            s2.subrange(1, s2.len() as int)
        } else {
            s2
        }
    } else {
        s
    }
}

/// The bounded in-memory cache: an in-order list of blocks and the retention
/// depth.
pub struct InMemoryCache {
    blocks: Vec<Block>,
    max_rollback_depth: usize,
}

impl View for InMemoryCache {
    type V = Seq<BlockV>;

    closed spec fn view(&self) -> Seq<BlockV> {
        self.blocks@.map_values(|b: Block| b@)
    }
}

impl InMemoryCache {
    /// Retention bound this cache was created with.
    pub closed spec fn depth(&self) -> nat {
        self.max_rollback_depth as nat
    }

    /// The cache invariant: its contents keep the cache shape and fit the
    /// retention bound.
    pub open spec fn wf(&self) -> bool {
        &&& cache_shape(self@)
        &&& self@.len() <= self.depth()
        &&& self.depth() >= 1
    }

    pub fn new(max_rollback_depth: usize) -> (r: InMemoryCache)
        requires
            max_rollback_depth >= 1,
        ensures
            r@ == Seq::<BlockV>::empty(),
            r.depth() == max_rollback_depth,
            r.wf(),
    {
        let r = InMemoryCache { blocks: Vec::new(), max_rollback_depth };
        assert(r@ =~= Seq::<BlockV>::empty());
        r
    }

    /// Is a block with this identifier cached?
    pub fn has_block(&self, id: &BlockId) -> (r: bool)
        ensures
            r == contains_id(self@, id@),
    {
        let mut i: usize = 0;
        while i < self.blocks.len()
            invariant
                i <= self.blocks@.len(),
                self@ == self.blocks@.map_values(|b: Block| b@),
                forall|j: int| 0 <= j < i ==> self@[j].id != id@,
            decreases self.blocks@.len() - i,
        {
            if bytes_eq(&self.blocks[i].id.bytes, &id.bytes) {
                assert(self@[i as int].id == id@);
                return true;
            }
            i = i + 1;
        }
        false
    }

    /// Does some cached block contain a transaction with this identifier?
    pub fn has_tx(&self, tx_id: &Vec<u8>) -> (r: bool)
        ensures
            r == contains_tx(self@, tx_id@),
    {
        let mut i: usize = 0;
        while i < self.blocks.len()
            invariant
                i <= self.blocks@.len(),
                self@ == self.blocks@.map_values(|b: Block| b@),
                forall|x: int, y: int|
                    0 <= x < i && 0 <= y < self@[x].transactions.len() ==> self@[x].transactions[y].id != tx_id@,
            decreases self.blocks@.len() - i,
        {
            let txs = &self.blocks[i].transactions;
            let mut j: usize = 0;
            while j < txs.len()
                invariant
                    j <= txs@.len(),
                    txs@.map_values(|t: crate::client_model::BlockTransaction| t@) == self@[i as int].transactions,
                    i < self@.len(),
                    forall|y: int| 0 <= y < j ==> self@[i as int].transactions[y].id != tx_id@,
                decreases txs@.len() - j,
            {
                if bytes_eq(&txs[j].id.bytes, tx_id) {
                    assert(self@[i as int].transactions[j as int].id == tx_id@);
                    return true;
                }
                j = j + 1;
            }
            i = i + 1;
        }
        false
    }

    /// The highest cached block, cloned, or `None` on an empty cache.
    pub fn get_best_block(&self) -> (r: Option<Block>)
        ensures
            match r {
                Some(b) => self@.len() > 0 && b@ == self@.last(),
                None => self@.len() == 0,
            },
    {
        if self.blocks.len() == 0 {
            None
        } else {
            let b = self.blocks[self.blocks.len() - 1].clone();
            Some(b)
        }
    }

    /// Record of the highest cached block, or `None` on an empty cache.
    pub fn get_best_block_record(&self) -> (r: Option<crate::model::BlockRecord>)
        ensures
            match r {
                Some(rec) => self@.len() > 0 && rec@ == (self@.last().id, self@.last().height),
                None => self@.len() == 0,
            },
    {
        if self.blocks.len() == 0 {
            None
        } else {
            let b = &self.blocks[self.blocks.len() - 1];
            Some(crate::model::BlockRecord { id: b.id.clone(), height: b.height })
        }
    }

    /// Idempotent insert: a no-op when the identifier is already cached or
    /// the block would break the cache's shape; otherwise the block becomes
    /// the new head, and the oldest block is evicted when the cache is full.
    pub fn append_block(&mut self, b: Block)
        requires
            old(self).wf(),
        ensures
            final(self).wf(),
            final(self).depth() == old(self).depth(),
            final(self)@ == cache_append(old(self)@, old(self).depth(), b@),
    {
        let ghost s0 = self@;
        let ghost depth = self.depth();
        if self.has_block(&b.id) {
            return;
        }
        if self.blocks.len() == 0 {
            self.blocks.push(b);
            assert(self@ =~= s0.push(b@));
            return;
        }
        let last_height = self.blocks[self.blocks.len() - 1].height;
        let linked_ok = if !(b.height > last_height) {
            false
        } else if b.height == last_height + 1 {
            bytes_eq(&b.parent_id.bytes, &self.blocks[self.blocks.len() - 1].id.bytes)
        } else {
            true
        };
        assert(s0.last() == self@[self@.len() - 1]);
        if !linked_ok {
            assert(!can_extend(s0, b@));
            return;
        }
        assert(can_extend(s0, b@));
        self.blocks.push(b);
        assert(self@ =~= s0.push(b@));
        if self.blocks.len() > self.max_rollback_depth {
            self.blocks.remove(0);
            assert(self@ =~= s0.push(b@).subrange(1, s0.push(b@).len() as int));
        }
        proof {
            lemma_append_preserves_shape(s0, depth, b@);
        }
    }

    /// Pop the head: returns the highest cached block, or `None` when the
    /// cache is empty.
    pub fn take_best_block(&mut self) -> (r: Option<Block>)
        requires
            old(self).wf(),
        ensures
            final(self).wf(),
            final(self).depth() == old(self).depth(),
            match r {
                Some(b) => old(self)@.len() > 0 && b@ == old(self)@.last() && final(self)@ == old(
                    self,
                )@.drop_last(),
                None => old(self)@.len() == 0 && final(self)@ == old(self)@,
            },
    {
        let ghost s0 = self@;
        if self.blocks.len() == 0 {
            return None;
        }
        let b = self.blocks.pop().unwrap();
        assert(self@ =~= s0.drop_last());
        Some(b)
    }
}

/// Appending keeps the cache shape.
pub proof fn lemma_append_preserves_shape(s: Seq<BlockV>, depth: nat, b: BlockV)
    requires
        cache_shape(s),
        s.len() <= depth,
        depth >= 1,
    ensures
        cache_shape(cache_append(s, depth, b)),
        cache_append(s, depth, b).len() <= depth,
{
    let r = cache_append(s, depth, b);
    if !contains_id(s, b.id) && can_extend(s, b) {
        let s2 = s.push(b);
        assert forall|i: int, j: int| 0 <= i < j < s2.len() implies s2[i].height < s2[j].height by {
            if j == s2.len() - 1 {
                if i < s.len() - 1 {
                    assert(s[i].height < s[s.len() - 1].height);
                }
            }
        }
        assert forall|i: int|
            0 <= i < s2.len() - 1 && s2[i + 1].height == s2[i].height + 1 implies s2[i
            + 1].parent_id == s2[i].id by {
            if i == s2.len() - 2 && s.len() > 0 {
                assert(s2[i] == s.last());
            }
        }
        assert forall|i: int, j: int| 0 <= i < j < s2.len() implies s2[i].id != s2[j].id by {
            if j == s2.len() - 1 {
                assert(!contains_id(s, b.id));
                assert(s2[i] == s[i]);
            }
        }
        assert(cache_shape(s2));
        if s2.len() > depth {
            let s3 = s2.subrange(1, s2.len() as int);
            assert forall|i: int, j: int| 0 <= i < j < s3.len() implies s3[i].height < s3[j].height by {
                assert(s3[i] == s2[i + 1]);
                assert(s3[j] == s2[j + 1]);
            }
            assert forall|i: int|
                0 <= i < s3.len() - 1 && s3[i + 1].height == s3[i].height + 1 implies s3[i
                + 1].parent_id == s3[i].id by {
                assert(s3[i] == s2[i + 1]);
                assert(s3[i + 1] == s2[i + 2]);
            }
            assert forall|i: int, j: int| 0 <= i < j < s3.len() implies s3[i].id != s3[j].id by {
                assert(s3[i] == s2[i + 1]);
                assert(s3[j] == s2[j + 1]);
            }
        }
    }
}

} // verus!
