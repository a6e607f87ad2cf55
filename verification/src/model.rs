//! Core chain data: block identifiers, blocks and the compact cache record.

use vstd::prelude::*;
use crate::client_model::BlockTransaction;
use crate::client_model::BlockTransactionV;

verus! {

/// A 32-byte content-addressed block identifier.
pub struct BlockId {
    pub bytes: Vec<u8>,
}

impl View for BlockId {
    type V = Seq<u8>;

    open spec fn view(&self) -> Seq<u8> {
        self.bytes@
    }
}

impl BlockId {
    /// The identifier is well-formed when it holds exactly 32 bytes.
    pub open spec fn wf(&self) -> bool {
        self@.len() == 32
    }

    pub fn new(bytes: Vec<u8>) -> (r: BlockId)
        ensures
            r@ == bytes@,
    {
        BlockId { bytes }
    }
}

impl Clone for BlockId {
    fn clone(&self) -> (r: Self)
        ensures
            r@ == self@,
    {
        BlockId { bytes: copy_bytes(&self.bytes) }
    }
}

/// Byte-for-byte copy of a byte vector.
pub fn copy_bytes(v: &Vec<u8>) -> (r: Vec<u8>)
    ensures
        r@ == v@,
{
    let mut r: Vec<u8> = Vec::new();
    let mut i: usize = 0;
    while i < v.len()
        invariant
            i <= v@.len(),
            r@ == v@.subrange(0, i as int),
        decreases v@.len() - i,
    {
        r.push(v[i]);
        assert(r@ == v@.subrange(0, i + 1 as int));
        i = i + 1;
    }
    assert(r@ == v@);
    r
}

/// Byte-for-byte comparison of two byte vectors.
pub fn bytes_eq(a: &Vec<u8>, b: &Vec<u8>) -> (r: bool)
    ensures
        r == (a@ == b@),
{
    if a.len() != b.len() {
        assert(a@ != b@);
        return false;
    }
    let mut i: usize = 0;
    while i < a.len()
        invariant
            i <= a@.len(),
            a@.len() == b@.len(),
            forall|j: int| 0 <= j < i ==> a@[j] == b@[j],
        decreases a@.len() - i,
    {
        if a[i] != b[i] {
            return false;
        }
        i = i + 1;
    }
    assert(a@ =~= b@);
    true
}

/// Mathematical image of a [`Block`].
pub struct BlockV {
    pub id: Seq<u8>,
    pub parent_id: Seq<u8>,
    pub height: u32,
    pub timestamp: u64,
    pub transactions: Seq<BlockTransactionV>,
}

/// A block as the cache stores it and upgrades carry it: header fields plus
/// the ordered transactions.
pub struct Block {
    pub id: BlockId,
    pub parent_id: BlockId,
    pub height: u32,
    pub timestamp: u64,
    pub transactions: Vec<BlockTransaction>,
}

impl View for Block {
    type V = BlockV;

    open spec fn view(&self) -> BlockV {
        BlockV {
            id: self.id@,
            parent_id: self.parent_id@,
            height: self.height,
            timestamp: self.timestamp,
            transactions: self.transactions@.map_values(|t: BlockTransaction| t@),
        }
    }
}

impl Clone for Block {
    fn clone(&self) -> (r: Self)
        ensures
            r@ == self@,
    {
        let r = Block {
            id: self.id.clone(),
            parent_id: self.parent_id.clone(),
            height: self.height,
            timestamp: self.timestamp,
            transactions: copy_transactions(&self.transactions),
        };
        assert(r@.transactions =~= self@.transactions);
        assert(r@ =~= self@);
        r
    }
}

/// Element-wise copy of a transaction list.
pub fn copy_transactions(v: &Vec<BlockTransaction>) -> (r: Vec<BlockTransaction>)
    ensures
        r@.map_values(|t: BlockTransaction| t@) == v@.map_values(|t: BlockTransaction| t@),
{
    let ghost vw = v@.map_values(|t: BlockTransaction| t@);
    let mut r: Vec<BlockTransaction> = Vec::new();
    let mut i: usize = 0;
    while i < v.len()
        invariant
            i <= v@.len(),
            vw == v@.map_values(|t: BlockTransaction| t@),
            r@.len() == i,
            forall|j: int| 0 <= j < i ==> r@.map_values(|t: BlockTransaction| t@)[j] == vw[j],
        decreases v@.len() - i,
    {
        r.push(v[i].clone());
        i = i + 1;
    }
    assert(r@.map_values(|t: BlockTransaction| t@) =~= vw);
    r
}

/// The cache's compact index entry: identifier and height of a block.
pub struct BlockRecord {
    pub id: BlockId,
    pub height: u32,
}

impl View for BlockRecord {
    type V = (Seq<u8>, u32);

    open spec fn view(&self) -> (Seq<u8>, u32) {
        (self.id@, self.height)
    }
}

} // verus!
