//! Laws of the follower's classification step.
//!
//! Cursor conservation: over a batch of fresh blocks the cursor moves by
//! exactly the number of forward upgrades minus the number of backward
//! upgrades. Idempotent re-application: a batch that carries the same block
//! twice appends it once, emits one forward upgrade, and advances the cursor
//! twice.

use vstd::prelude::*;
use crate::chain_cache::cache_append;
use crate::chain_cache::can_extend;
use crate::chain_cache::contains_id;
use crate::model::BlockV;
use crate::sync::ChainUpgradeV;
use crate::sync::classify;

verus! {

/// Number of forward upgrades in an emitted sequence.
pub open spec fn count_forward(ups: Seq<ChainUpgradeV>) -> int
    decreases ups.len(),
{
    if ups.len() == 0 {
        0
    } else {
        (if ups.first() is RollForward {
            1int
        } else {
            0int
        }) + count_forward(ups.drop_first())
    }
}

/// Number of backward upgrades in an emitted sequence.
pub open spec fn count_backward(ups: Seq<ChainUpgradeV>) -> int
    decreases ups.len(),
{
    if ups.len() == 0 {
        0
    } else {
        (if ups.first() is RollBackward {
            1int
        } else {
            0int
        }) + count_backward(ups.drop_first())
    }
}

/// An identifier found after an append was either already cached or belongs
/// to the appended block.
pub proof fn lemma_cache_append_ids(s: Seq<BlockV>, depth: nat, b: BlockV, x: Seq<u8>)
    requires
        contains_id(cache_append(s, depth, b), x),
    ensures
        contains_id(s, x) || x == b.id,
{
    let r = cache_append(s, depth, b);
    if !contains_id(s, b.id) && can_extend(s, b) {
        let s2 = s.push(b);
        let i = choose|i: int| 0 <= i < r.len() && r[i].id == x;
        let k: int = if s2.len() > depth {
            i + 1
        } else {
            i
        };
        assert(r[i] == s2[k]);
        if k < s.len() {
            assert(s[k].id == x);
        } else {
            assert(x == b.id);
        }
    }
}

/// Cursor conservation: classifying a batch of fresh blocks — none cached,
/// identifiers pairwise distinct — moves the cursor by exactly the number of
/// forward upgrades emitted minus the number of backward upgrades emitted.
pub proof fn lemma_cursor_conservation(
    start_h: u32,
    h0: u32,
    depth: nat,
    cache: Seq<BlockV>,
    cur: int,
    batch: Seq<BlockV>,
)
    requires
        forall|j: int| 0 <= j < batch.len() ==> !contains_id(cache, #[trigger] batch[j].id),
        forall|j: int, k: int| 0 <= j < k < batch.len() ==> batch[j].id != batch[k].id,
    ensures
        ({
            let stepped = classify(start_h, h0, depth, cache, cur, batch);
            stepped.1 == cur + count_forward(stepped.2) - count_backward(stepped.2)
        }),
    decreases batch.len(),
{
    let stepped = classify(start_h, h0, depth, cache, cur, batch);
    if batch.len() == 0 {
    } else {
        let b = batch.first();
        let rest = batch.drop_first();
        assert(!contains_id(cache, b.id));
        if b.height < h0 {
        } else if contains_id(cache, b.id) {
            assert(false);
        } else if contains_id(cache, b.parent_id) || b.height == start_h {
            let c2 = cache_append(cache, depth, b);
            assert forall|j: int| 0 <= j < rest.len() implies !contains_id(
                c2,
                #[trigger] rest[j].id,
            ) by {
                assert(rest[j] == batch[j + 1]);
                if contains_id(c2, rest[j].id) {
                    lemma_cache_append_ids(cache, depth, b, rest[j].id);
                }
            }
            assert forall|j: int, k: int| 0 <= j < k < rest.len() implies rest[j].id != rest[k].id by {
                assert(rest[j] == batch[j + 1]);
                assert(rest[k] == batch[k + 1]);
            }
            lemma_cursor_conservation(start_h, h0, depth, c2, cur + 1, rest);
            let sub = classify(start_h, h0, depth, c2, cur + 1, rest);
            let ups = seq![ChainUpgradeV::RollForward(b)] + sub.2;
            assert(ups.drop_first() =~= sub.2);
            assert(count_forward(ups) == 1 + count_forward(sub.2));
            assert(count_backward(ups) == count_backward(sub.2));
        } else if cache.len() > 0 {
            let ups = seq![ChainUpgradeV::RollBackward(cache.last())];
            assert(ups.drop_first() =~= Seq::<ChainUpgradeV>::empty());
            assert(count_forward(Seq::<ChainUpgradeV>::empty()) == 0);
            assert(count_backward(Seq::<ChainUpgradeV>::empty()) == 0);
            assert(ups.first() == ChainUpgradeV::RollBackward(cache.last()));
            assert(count_forward(ups) == 0);
            assert(count_backward(ups) == 1);
        } else {
            assert forall|j: int| 0 <= j < rest.len() implies !contains_id(
                cache,
                #[trigger] rest[j].id,
            ) by {
                assert(rest[j] == batch[j + 1]);
            }
            assert forall|j: int, k: int| 0 <= j < k < rest.len() implies rest[j].id != rest[k].id by {
                assert(rest[j] == batch[j + 1]);
                assert(rest[k] == batch[k + 1]);
            }
            lemma_cursor_conservation(start_h, h0, depth, cache, cur, rest);
        }
    }
}

/// Idempotent re-application: a batch carrying the same fresh, appendable
/// block twice appends it once and emits exactly one forward upgrade; the
/// second copy is recognised as cached and only advances the cursor.
pub proof fn lemma_idempotent_reapplication(
    start_h: u32,
    h0: u32,
    depth: nat,
    cache: Seq<BlockV>,
    cur: int,
    b: BlockV,
)
    requires
        depth >= 1,
        !contains_id(cache, b.id),
        can_extend(cache, b),
        contains_id(cache, b.parent_id) || b.height == start_h,
        b.height >= h0,
    ensures
        classify(start_h, h0, depth, cache, cur, seq![b, b]) == (
            cache_append(cache, depth, b),
            cur + 2,
            seq![ChainUpgradeV::RollForward(b)],
        ),
{
    let batch = seq![b, b];
    let c2 = cache_append(cache, depth, b);
    assert(c2.last() == b) by {
        let s2 = cache.push(b);
        if s2.len() > depth {
            assert(c2 == s2.subrange(1, s2.len() as int));
            assert(c2[c2.len() - 1] == s2[s2.len() - 1]);
        }
    }
    assert(contains_id(c2, b.id)) by {
        assert(c2[c2.len() - 1].id == b.id);
    }
    assert(batch.first() == b);
    assert(batch.drop_first() =~= seq![b]);
    assert(seq![b].first() == b);
    assert(seq![b].drop_first() =~= Seq::<BlockV>::empty());
    let after_skip = classify(start_h, h0, depth, c2, cur + 2, Seq::<BlockV>::empty());
    assert(after_skip == (c2, cur + 2, Seq::<ChainUpgradeV>::empty()));
    let second = classify(start_h, h0, depth, c2, cur + 1, seq![b]);
    assert(second == (c2, cur + 2, Seq::<ChainUpgradeV>::empty()));
    let first = classify(start_h, h0, depth, cache, cur, batch);
    assert(first.2 =~= seq![ChainUpgradeV::RollForward(b)]);
}

} // verus!
