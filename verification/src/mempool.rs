//! The mempool follower's decisions: diffing one snapshot of unconfirmed
//! transactions against the previous one, and shaping the resulting events.
//!
//! Fetching pages of the mempool is the caller's job; the diff and the
//! pagination rule are decided and verified here.

use vstd::prelude::*;
use crate::chain_cache::InMemoryCache;
use crate::chain_cache::contains_tx;
use crate::client_model::BlockTransaction;
use crate::client_model::BlockTransactionV;
use crate::encoding::base64_of;
use crate::encoding::encode_base64;
use crate::model::BlockV;
use crate::model::bytes_eq;

verus! {

/// What happened to an unconfirmed transaction between two snapshots.
pub enum MempoolUpdate {
    TxAccepted(BlockTransaction),
    TxWithdrawn(BlockTransaction),
    TxConfirmed(BlockTransaction),
}

/// Mathematical image of a [`MempoolUpdate`].
pub enum MempoolUpdateV {
    TxAccepted(BlockTransactionV),
    TxWithdrawn(BlockTransactionV),
    TxConfirmed(BlockTransactionV),
}

impl View for MempoolUpdate {
    type V = MempoolUpdateV;

    open spec fn view(&self) -> MempoolUpdateV {
        match self {
            MempoolUpdate::TxAccepted(t) => MempoolUpdateV::TxAccepted(t@),
            MempoolUpdate::TxWithdrawn(t) => MempoolUpdateV::TxWithdrawn(t@),
            MempoolUpdate::TxConfirmed(t) => MempoolUpdateV::TxConfirmed(t@),
        }
    }
}

/// The downstream form of a mempool update: the transaction as base64 of its
/// serialised bytes. A confirmed transaction is reported as withdrawn with
/// the `confirmed` flag set.
pub enum MempoolEvent {
    TxAccepted { tx: String },
    TxWithdrawn { tx: String, confirmed: bool },
}

impl MempoolEvent {
    /// Shape one update around the serialised bytes of its transaction.
    /// Every update converts.
    pub fn try_from(value: &MempoolUpdate, tx_cbor: &Vec<u8>) -> (r: Result<MempoolEvent, ()>)
        ensures
            match r {
                Ok(ev) => match value@ {
                    MempoolUpdateV::TxAccepted(_) => ev matches MempoolEvent::TxAccepted { tx }
                        && tx@ == base64_of(tx_cbor@),
                    MempoolUpdateV::TxWithdrawn(_) => ev matches MempoolEvent::TxWithdrawn {
                        tx,
                        confirmed,
                    } && tx@ == base64_of(tx_cbor@) && !confirmed,
                    MempoolUpdateV::TxConfirmed(_) => ev matches MempoolEvent::TxWithdrawn {
                        tx,
                        confirmed,
                    } && tx@ == base64_of(tx_cbor@) && confirmed,
                },
                Err(_) => false,
            },
    {
        let encoded = encode_base64(tx_cbor);
        match value {
            MempoolUpdate::TxAccepted(_) => Ok(MempoolEvent::TxAccepted { tx: encoded }),
            MempoolUpdate::TxWithdrawn(_) => Ok(
                MempoolEvent::TxWithdrawn { tx: encoded, confirmed: false },
            ),
            MempoolUpdate::TxConfirmed(_) => Ok(
                MempoolEvent::TxWithdrawn { tx: encoded, confirmed: true },
            ),
        }
    }
}

/// Does the list hold a transaction with this identifier?
pub open spec fn has_tx_id(s: Seq<BlockTransactionV>, id: Seq<u8>) -> bool {
    exists|i: int| 0 <= i < s.len() && s[i].id == id
}

/// Accept events of one snapshot: one per transaction, in snapshot order,
/// whose identifier the previous snapshot did not hold.
pub open spec fn accepted_updates(
    known: Seq<BlockTransactionV>,
    snap: Seq<BlockTransactionV>,
) -> Seq<MempoolUpdateV>
    decreases snap.len(),
{
    if snap.len() == 0 {
        Seq::<MempoolUpdateV>::empty()
    } else {
        (if has_tx_id(known, snap.first().id) {
            Seq::<MempoolUpdateV>::empty()
        } else {
            seq![MempoolUpdateV::TxAccepted(snap.first())]
        }) + accepted_updates(known, snap.drop_first())
    }
}

/// Departure events: one per previously known transaction, in order, that the
/// new snapshot no longer holds — confirmed when a cached block contains it,
/// withdrawn otherwise.
pub open spec fn departed_updates(
    known: Seq<BlockTransactionV>,
    snap: Seq<BlockTransactionV>,
    cache: Seq<BlockV>,
) -> Seq<MempoolUpdateV>
    decreases known.len(),
{
    if known.len() == 0 {
        Seq::<MempoolUpdateV>::empty()
    } else {
        (if has_tx_id(snap, known.first().id) {
            Seq::<MempoolUpdateV>::empty()
        } else if contains_tx(cache, known.first().id) {
            seq![MempoolUpdateV::TxConfirmed(known.first())]
        } else {
            seq![MempoolUpdateV::TxWithdrawn(known.first())]
        }) + departed_updates(known.drop_first(), snap, cache)
    }
}

/// Does the list hold a transaction with this identifier?
fn vec_has_tx_id(v: &Vec<BlockTransaction>, id: &Vec<u8>) -> (r: bool)
    ensures
        r == has_tx_id(v@.map_values(|t: BlockTransaction| t@), id@),
{
    let ghost vw = v@.map_values(|t: BlockTransaction| t@);
    let mut i: usize = 0;
    while i < v.len()
        invariant
            i <= v@.len(),
            vw == v@.map_values(|t: BlockTransaction| t@),
            forall|j: int| 0 <= j < i ==> vw[j].id != id@,
        decreases v@.len() - i,
    {
        if bytes_eq(&v[i].id.bytes, id) {
            assert(vw[i as int].id == id@);
            return true;
        }
        i = i + 1;
    }
    false
}

/// The mempool follower's memory: the transactions of the last snapshot.
pub struct MempoolSyncState {
    known: Vec<BlockTransaction>,
}

impl View for MempoolSyncState {
    type V = Seq<BlockTransactionV>;

    closed spec fn view(&self) -> Seq<BlockTransactionV> {
        self.known@.map_values(|t: BlockTransaction| t@)
    }
}

impl MempoolSyncState {
    pub fn new() -> (r: MempoolSyncState)
        ensures
            r@ == Seq::<BlockTransactionV>::empty(),
    {
        let r = MempoolSyncState { known: Vec::new() };
        assert(r@ =~= Seq::<BlockTransactionV>::empty());
        r
    }

    /// Diff a fresh snapshot against the remembered one: accept events for
    /// new transactions in snapshot order, then departure events for the
    /// vanished ones in remembered order, telling confirmed from withdrawn by
    /// the chain cache. The snapshot replaces the memory.
    pub fn diff(&mut self, snapshot: Vec<BlockTransaction>, cache: &InMemoryCache) -> (r: Vec<
        MempoolUpdate,
    >)
        ensures
            final(self)@ == snapshot@.map_values(|t: BlockTransaction| t@),
            r@.map_values(|u: MempoolUpdate| u@) == accepted_updates(
                old(self)@,
                snapshot@.map_values(|t: BlockTransaction| t@),
            ) + departed_updates(
                old(self)@,
                snapshot@.map_values(|t: BlockTransaction| t@),
                cache@,
            ),
    {
        let ghost known0 = self@;
        let ghost snapv = snapshot@.map_values(|t: BlockTransaction| t@);
        let ghost acc_full = accepted_updates(known0, snapv);
        let ghost dep_full = departed_updates(known0, snapv, cache@);
        let mut r: Vec<MempoolUpdate> = Vec::new();
        let mut i: usize = 0;
        proof {
            assert(snapv.skip(0) =~= snapv);
            assert(r@.map_values(|u: MempoolUpdate| u@) =~= Seq::<MempoolUpdateV>::empty());
            assert(Seq::<MempoolUpdateV>::empty() + acc_full =~= acc_full);
        }
        while i < snapshot.len()
            invariant
                i <= snapshot@.len(),
                snapv == snapshot@.map_values(|t: BlockTransaction| t@),
                known0 == self@,
                acc_full == r@.map_values(|u: MempoolUpdate| u@) + accepted_updates(
                    known0,
                    snapv.skip(i as int),
                ),
            decreases snapshot@.len() - i,
        {
            let ghost ups_i = r@.map_values(|u: MempoolUpdate| u@);
            proof {
                assert(snapv.skip(i as int).first() == snapv[i as int]);
                assert(snapv.skip(i as int).drop_first() =~= snapv.skip(i as int + 1));
                assert(snapv[i as int] == snapshot@[i as int]@);
            }
            if !vec_has_tx_id(&self.known, &snapshot[i].id.bytes) {
                r.push(MempoolUpdate::TxAccepted(snapshot[i].clone()));
                proof {
                    assert(r@.map_values(|u: MempoolUpdate| u@) =~= ups_i + seq![
                        MempoolUpdateV::TxAccepted(snapv[i as int]),
                    ]);
                    assert(ups_i + (seq![MempoolUpdateV::TxAccepted(snapv[i as int])]
                        + accepted_updates(known0, snapv.skip(i as int + 1))) =~= (ups_i + seq![
                        MempoolUpdateV::TxAccepted(snapv[i as int]),
                    ]) + accepted_updates(known0, snapv.skip(i as int + 1)));
                }
            } else {
                proof {
                    assert(Seq::<MempoolUpdateV>::empty() + accepted_updates(
                        known0,
                        snapv.skip(i as int + 1),
                    ) =~= accepted_updates(known0, snapv.skip(i as int + 1)));
                }
            }
            i = i + 1;
        }
        proof {
            assert(snapv.skip(snapshot@.len() as int) =~= Seq::<BlockTransactionV>::empty());
            assert(r@.map_values(|u: MempoolUpdate| u@) + Seq::<MempoolUpdateV>::empty() =~= r@
                .map_values(|u: MempoolUpdate| u@));
            assert(r@.map_values(|u: MempoolUpdate| u@) == acc_full);
        }
        let mut k: usize = 0;
        proof {
            assert(known0.skip(0) =~= known0);
        }
        while k < self.known.len()
            invariant
                k <= self.known@.len(),
                known0 == self@,
                snapv == snapshot@.map_values(|t: BlockTransaction| t@),
                acc_full + dep_full == r@.map_values(|u: MempoolUpdate| u@) + departed_updates(
                    known0.skip(k as int),
                    snapv,
                    cache@,
                ),
            decreases self.known@.len() - k,
        {
            let ghost ups_k = r@.map_values(|u: MempoolUpdate| u@);
            proof {
                assert(known0.skip(k as int).first() == known0[k as int]);
                assert(known0.skip(k as int).drop_first() =~= known0.skip(k as int + 1));
                assert(known0[k as int] == self.known@[k as int]@);
            }
            if !vec_has_tx_id(&snapshot, &self.known[k].id.bytes) {
                let departed = self.known[k].clone();
                if cache.has_tx(&self.known[k].id.bytes) {
                    r.push(MempoolUpdate::TxConfirmed(departed));
                    proof {
                        assert(r@.map_values(|u: MempoolUpdate| u@) =~= ups_k + seq![
                            MempoolUpdateV::TxConfirmed(known0[k as int]),
                        ]);
                        assert(ups_k + (seq![MempoolUpdateV::TxConfirmed(known0[k as int])]
                            + departed_updates(known0.skip(k as int + 1), snapv, cache@)) =~= (
                        ups_k + seq![MempoolUpdateV::TxConfirmed(known0[k as int])])
                            + departed_updates(known0.skip(k as int + 1), snapv, cache@));
                    }
                } else {
                    r.push(MempoolUpdate::TxWithdrawn(departed));
                    proof {
                        assert(r@.map_values(|u: MempoolUpdate| u@) =~= ups_k + seq![
                            MempoolUpdateV::TxWithdrawn(known0[k as int]),
                        ]);
                        assert(ups_k + (seq![MempoolUpdateV::TxWithdrawn(known0[k as int])]
                            + departed_updates(known0.skip(k as int + 1), snapv, cache@)) =~= (
                        ups_k + seq![MempoolUpdateV::TxWithdrawn(known0[k as int])])
                            + departed_updates(known0.skip(k as int + 1), snapv, cache@));
                    }
                }
            } else {
                proof {
                    assert(Seq::<MempoolUpdateV>::empty() + departed_updates(
                        known0.skip(k as int + 1),
                        snapv,
                        cache@,
                    ) =~= departed_updates(known0.skip(k as int + 1), snapv, cache@));
                }
            }
            k = k + 1;
        }
        proof {
            assert(known0.skip(self.known@.len() as int) =~= Seq::<BlockTransactionV>::empty());
            assert(r@.map_values(|u: MempoolUpdate| u@) + Seq::<MempoolUpdateV>::empty() =~= r@
                .map_values(|u: MempoolUpdate| u@));
        }
        self.known = snapshot;
        r
    }
}

/// The pagination rule of the mempool poll: keep fetching pages of `limit`
/// until a short page arrives; the next offset advances by `limit`.
pub fn next_mempool_offset(offset: usize, limit: usize, page_len: usize) -> (r: Option<usize>)
    requires
        offset + limit <= usize::MAX,
    ensures
        r == if page_len < limit {
            None::<usize>
        } else {
            Some((offset + limit) as usize)
        },
{
    if page_len < limit {
        None
    } else {
        Some(offset + limit)
    }
}

} // verus!
