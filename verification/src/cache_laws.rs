//! Laws of the bounded cache, stated over its mathematical model.
//!
//! They cover the linkage of neighbouring cached blocks, the round trip of
//! appending a linked chain and popping it back in reverse, and the eviction
//! of the oldest block once the retention depth is exceeded.

use vstd::prelude::*;
use crate::chain_cache::cache_append;
use crate::chain_cache::cache_shape;
use crate::chain_cache::can_extend;
use crate::chain_cache::contains_id;
use crate::model::BlockV;

verus! {

/// A linked chain: consecutive heights, each block the parent of the next,
/// all identifiers distinct.
pub open spec fn linked_chain(cs: Seq<BlockV>) -> bool {
    &&& forall|i: int|
        0 <= i < cs.len() - 1 ==> cs[i + 1].height == cs[i].height + 1 && cs[i + 1].parent_id
            == cs[i].id
    &&& forall|i: int, j: int| 0 <= i < j < cs.len() ==> cs[i].id != cs[j].id
}

/// The cached sequence after appending the blocks of `cs` in order.
pub open spec fn fold_appends(s: Seq<BlockV>, depth: nat, cs: Seq<BlockV>) -> Seq<BlockV>
    decreases cs.len(),
{
    if cs.len() == 0 {
        s
    } else {
        fold_appends(cache_append(s, depth, cs.first()), depth, cs.drop_first())
    }
}

/// The blocks returned by popping the head until the cache is empty.
pub open spec fn pop_all(s: Seq<BlockV>) -> Seq<BlockV>
    decreases s.len(),
{
    if s.len() == 0 {
        Seq::<BlockV>::empty()
    } else {
        seq![s.last()] + pop_all(s.drop_last())
    }
}

/// The retained window after the first `k` blocks of a chain have been
/// appended: the most recent `depth` of them.
pub open spec fn chain_window(cs: Seq<BlockV>, depth: nat, k: int) -> Seq<BlockV> {
    cs.subrange(if k - depth > 0 { k - depth } else { 0 }, k)
}

/// Cache linkage: whenever two cached blocks sit at consecutive heights, the
/// higher one names the lower one as its parent — whatever positions they
/// occupy.
pub proof fn lemma_cache_linkage(s: Seq<BlockV>)
    requires
        cache_shape(s),
    ensures
        forall|i: int, j: int|
            0 <= i < s.len() && 0 <= j < s.len() && s[j].height == s[i].height + 1 ==> s[
                j].parent_id == s[i].id,
{
    assert forall|i: int, j: int|
        0 <= i < s.len() && 0 <= j < s.len() && s[j].height == s[i].height + 1 implies s[
        j].parent_id == s[i].id by {
        if j <= i {
            if j < i {
                assert(s[j].height < s[i].height);
            }
            assert(false);
        } else if j > i + 1 {
            assert(s[i].height < s[i + 1].height);
            assert(s[i + 1].height < s[j].height);
            assert(false);
        }
    }
}

/// Appending the blocks of a linked chain in order retains exactly the most
/// recent `depth` of them, in order.
pub proof fn lemma_fold_appends_window(cs: Seq<BlockV>, depth: nat, k: int)
    requires
        linked_chain(cs),
        depth >= 1,
        0 <= k <= cs.len(),
    ensures
        fold_appends(chain_window(cs, depth, k), depth, cs.skip(k)) == chain_window(
            cs,
            depth,
            cs.len() as int,
        ),
    decreases cs.len() - k,
{
    if k == cs.len() {
        assert(cs.skip(k) =~= Seq::<BlockV>::empty());
    } else {
        let s = chain_window(cs, depth, k);
        let b = cs[k];
        let lo: int = if k - depth > 0 { k - depth } else { 0 };
        assert(s.len() == k - lo);
        assert forall|i: int| 0 <= i < s.len() implies s[i] == cs[lo + i] by {}
        assert(!contains_id(s, b.id)) by {
            if contains_id(s, b.id) {
                let i = choose|i: int| 0 <= i < s.len() && s[i].id == b.id;
                assert(cs[lo + i].id == cs[k as int].id);
                assert(false);
            }
        }
        assert(can_extend(s, b)) by {
            if s.len() > 0 {
                assert(s.last() == cs[k - 1]);
                assert(cs[k as int].height == cs[k - 1].height + 1);
            }
        }
        let s2 = s.push(b);
        assert(s2 =~= cs.subrange(lo, k + 1));
        let stepped = cache_append(s, depth, b);
        assert(stepped == chain_window(cs, depth, k + 1)) by {
            if s2.len() > depth {
                assert(stepped == s2.subrange(1, s2.len() as int));
                assert(s2.subrange(1, s2.len() as int) =~= chain_window(cs, depth, k + 1));
            } else {
                assert(s2 =~= chain_window(cs, depth, k + 1));
            }
        }
        assert(cs.skip(k).first() == b);
        assert(cs.skip(k).drop_first() =~= cs.skip(k + 1));
        lemma_fold_appends_window(cs, depth, k + 1);
    }
}

/// Append–pop round trip: appending a linked chain that fits the retention
/// depth onto an empty cache stores it whole, and popping the head until the
/// cache is empty returns exactly the appended blocks, newest first.
pub proof fn lemma_append_pop_round_trip(cs: Seq<BlockV>, depth: nat)
    requires
        linked_chain(cs),
        depth >= 1,
        cs.len() <= depth,
    ensures
        fold_appends(Seq::<BlockV>::empty(), depth, cs) == cs,
        pop_all(cs) == cs.reverse(),
{
    lemma_fold_appends_window(cs, depth, 0);
    assert(chain_window(cs, depth, 0) =~= Seq::<BlockV>::empty());
    assert(cs.skip(0) =~= cs);
    assert(chain_window(cs, depth, cs.len() as int) =~= cs);
    lemma_pop_all_reverse(cs);
}

/// Popping every block returns the cached sequence reversed.
pub proof fn lemma_pop_all_reverse(s: Seq<BlockV>)
    ensures
        pop_all(s) == s.reverse(),
    decreases s.len(),
{
    if s.len() == 0 {
        assert(pop_all(s) =~= s.reverse());
    } else {
        lemma_pop_all_reverse(s.drop_last());
        assert(pop_all(s) =~= s.reverse()) by {
            assert forall|i: int| 0 <= i < s.len() implies pop_all(s)[i] == s.reverse()[i] by {
                if i > 0 {
                    assert(pop_all(s)[i] == pop_all(s.drop_last())[i - 1]);
                    assert(pop_all(s.drop_last())[i - 1] == s.drop_last().reverse()[i - 1]);
                    assert(s.drop_last().reverse()[i - 1] == s.drop_last()[s.len() - 1 - i]);
                }
            }
            assert(pop_all(s).len() == s.reverse().len()) by {
                assert(pop_all(s).len() == 1 + pop_all(s.drop_last()).len());
            }
        }
    }
}

/// Bounded depth: appending a linked chain longer than the retention depth
/// onto an empty cache evicts its first block.
pub proof fn lemma_bounded_depth(cs: Seq<BlockV>, depth: nat)
    requires
        linked_chain(cs),
        depth >= 1,
        cs.len() > depth,
    ensures
        !contains_id(fold_appends(Seq::<BlockV>::empty(), depth, cs), cs[0].id),
{
    lemma_fold_appends_window(cs, depth, 0);
    assert(chain_window(cs, depth, 0) =~= Seq::<BlockV>::empty());
    assert(cs.skip(0) =~= cs);
    let r = chain_window(cs, depth, cs.len() as int);
    let lo = cs.len() - depth;
    if contains_id(r, cs[0].id) {
        let i = choose|i: int| 0 <= i < r.len() && r[i].id == cs[0].id;
        assert(r[i] == cs[lo + i]);
        assert(cs[lo + i].id != cs[0].id);
        assert(false);
    }
}

} // verus!
