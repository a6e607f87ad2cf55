//! Data returned by the node on a full-block fetch, modelled with plain
//! values: identifiers and scripts are carried as their serialised bytes.
//!
//! Transactions come back with *resolved boxes* on their inputs (the spent
//! boxes themselves), not the proof-bearing ledger inputs; converting back to
//! the ledger form produces empty proofs and candidate outputs.

use vstd::prelude::*;
use crate::model::Block;
use crate::model::BlockId;
use crate::model::copy_bytes;

verus! {

/// Subset of the node's `/info` answer that the follower reads.
pub struct ApiInfo {
    pub full_height: u32,
}

/// A 32-byte transaction identifier.
pub struct TxId {
    pub bytes: Vec<u8>,
}

impl View for TxId {
    type V = Seq<u8>;

    open spec fn view(&self) -> Seq<u8> {
        self.bytes@
    }
}

impl Clone for TxId {
    fn clone(&self) -> (r: Self)
        ensures
            r@ == self@,
    {
        TxId { bytes: copy_bytes(&self.bytes) }
    }
}

/// A token carried by a box: 32-byte token identifier and amount.
pub struct Token {
    pub token_id: Vec<u8>,
    pub amount: u64,
}

/// Mathematical image of a [`Token`].
pub struct TokenV {
    pub token_id: Seq<u8>,
    pub amount: u64,
}

impl View for Token {
    type V = TokenV;

    open spec fn view(&self) -> TokenV {
        TokenV { token_id: self.token_id@, amount: self.amount }
    }
}

impl Clone for Token {
    fn clone(&self) -> (r: Self)
        ensures
            r@ == self@,
    {
        Token { token_id: copy_bytes(&self.token_id), amount: self.amount }
    }
}

/// One non-mandatory register of a box: register number (4 to 9) and the
/// serialised constant it holds.
pub struct RegisterValue {
    pub num: u8,
    pub value: Vec<u8>,
}

/// Mathematical image of a [`RegisterValue`].
pub struct RegisterValueV {
    pub num: u8,
    pub value: Seq<u8>,
}

impl View for RegisterValue {
    type V = RegisterValueV;

    open spec fn view(&self) -> RegisterValueV {
        RegisterValueV { num: self.num, value: self.value@ }
    }
}

impl Clone for RegisterValue {
    fn clone(&self) -> (r: Self)
        ensures
            r@ == self@,
    {
        RegisterValue { num: self.num, value: copy_bytes(&self.value) }
    }
}

/// A box (unspent output) as the node reports it: identifier, value, the
/// sigma-serialised script, assets, registers, and its origin (transaction
/// and output index).
pub struct ErgoBox {
    pub box_id: Vec<u8>,
    pub value: u64,
    pub ergo_tree: Vec<u8>,
    pub assets: Vec<Token>,
    pub additional_registers: Vec<RegisterValue>,
    pub creation_height: u32,
    pub transaction_id: TxId,
    pub index: u16,
}

/// Mathematical image of an [`ErgoBox`].
pub struct ErgoBoxV {
    pub box_id: Seq<u8>,
    pub value: u64,
    pub ergo_tree: Seq<u8>,
    pub assets: Seq<TokenV>,
    pub additional_registers: Seq<RegisterValueV>,
    pub creation_height: u32,
    pub transaction_id: Seq<u8>,
    pub index: u16,
}

impl View for ErgoBox {
    type V = ErgoBoxV;

    open spec fn view(&self) -> ErgoBoxV {
        ErgoBoxV {
            box_id: self.box_id@,
            value: self.value,
            ergo_tree: self.ergo_tree@,
            assets: self.assets@.map_values(|t: Token| t@),
            additional_registers: self.additional_registers@.map_values(|r: RegisterValue| r@),
            creation_height: self.creation_height,
            transaction_id: self.transaction_id@,
            index: self.index,
        }
    }
}

impl Clone for ErgoBox {
    fn clone(&self) -> (r: Self)
        ensures
            r@ == self@,
    {
        let r = ErgoBox {
            box_id: copy_bytes(&self.box_id),
            value: self.value,
            ergo_tree: copy_bytes(&self.ergo_tree),
            assets: copy_tokens(&self.assets),
            additional_registers: copy_registers(&self.additional_registers),
            creation_height: self.creation_height,
            transaction_id: self.transaction_id.clone(),
            index: self.index,
        };
        assert(r@ =~= self@);
        r
    }
}

/// Element-wise copy of a token list.
pub fn copy_tokens(v: &Vec<Token>) -> (r: Vec<Token>)
    ensures
        r@.map_values(|t: Token| t@) == v@.map_values(|t: Token| t@),
{
    let ghost vw = v@.map_values(|t: Token| t@);
    let mut r: Vec<Token> = Vec::new();
    let mut i: usize = 0;
    while i < v.len()
        invariant
            i <= v@.len(),
            vw == v@.map_values(|t: Token| t@),
            r@.len() == i,
            forall|j: int| 0 <= j < i ==> r@.map_values(|t: Token| t@)[j] == vw[j],
        decreases v@.len() - i,
    {
        r.push(v[i].clone());
        i = i + 1;
    }
    assert(r@.map_values(|t: Token| t@) =~= vw);
    r
}

/// Element-wise copy of a register list.
pub fn copy_registers(v: &Vec<RegisterValue>) -> (r: Vec<RegisterValue>)
    ensures
        r@.map_values(|x: RegisterValue| x@) == v@.map_values(|x: RegisterValue| x@),
{
    let ghost vw = v@.map_values(|x: RegisterValue| x@);
    let mut r: Vec<RegisterValue> = Vec::new();
    let mut i: usize = 0;
    while i < v.len()
        invariant
            i <= v@.len(),
            vw == v@.map_values(|x: RegisterValue| x@),
            r@.len() == i,
            forall|j: int| 0 <= j < i ==> r@.map_values(|x: RegisterValue| x@)[j] == vw[j],
        decreases v@.len() - i,
    {
        r.push(v[i].clone());
        i = i + 1;
    }
    assert(r@.map_values(|x: RegisterValue| x@) =~= vw);
    r
}

/// A data input: a box referenced by scripts but not spent.
pub struct DataInput {
    pub box_id: Vec<u8>,
}

impl View for DataInput {
    type V = Seq<u8>;

    open spec fn view(&self) -> Seq<u8> {
        self.box_id@
    }
}

impl Clone for DataInput {
    fn clone(&self) -> (r: Self)
        ensures
            r@ == self@,
    {
        DataInput { box_id: copy_bytes(&self.box_id) }
    }
}

/// A transaction in the form the node emits on full-block fetch: inputs are
/// resolved boxes, not proof-bearing ledger inputs.
pub struct BlockTransaction {
    pub id: TxId,
    pub inputs: Vec<ErgoBox>,
    pub data_inputs: Option<Vec<DataInput>>,
    pub outputs: Vec<ErgoBox>,
}

/// Mathematical image of a [`BlockTransaction`].
pub struct BlockTransactionV {
    pub id: Seq<u8>,
    pub inputs: Seq<ErgoBoxV>,
    pub data_inputs: Option<Seq<Seq<u8>>>,
    pub outputs: Seq<ErgoBoxV>,
}

impl View for BlockTransaction {
    type V = BlockTransactionV;

    open spec fn view(&self) -> BlockTransactionV {
        BlockTransactionV {
            id: self.id@,
            inputs: self.inputs@.map_values(|b: ErgoBox| b@),
            data_inputs: match self.data_inputs {
                Some(dis) => Some(dis@.map_values(|d: DataInput| d@)),
                None => None,
            },
            outputs: self.outputs@.map_values(|b: ErgoBox| b@),
        }
    }
}

/// Element-wise copy of a box list.
pub fn copy_boxes(v: &Vec<ErgoBox>) -> (r: Vec<ErgoBox>)
    ensures
        r@.map_values(|b: ErgoBox| b@) == v@.map_values(|b: ErgoBox| b@),
{
    let ghost vw = v@.map_values(|b: ErgoBox| b@);
    let mut r: Vec<ErgoBox> = Vec::new();
    let mut i: usize = 0;
    while i < v.len()
        invariant
            i <= v@.len(),
            vw == v@.map_values(|b: ErgoBox| b@),
            r@.len() == i,
            forall|j: int| 0 <= j < i ==> r@.map_values(|b: ErgoBox| b@)[j] == vw[j],
        decreases v@.len() - i,
    {
        r.push(v[i].clone());
        i = i + 1;
    }
    assert(r@.map_values(|b: ErgoBox| b@) =~= vw);
    r
}

/// Element-wise copy of a data-input list.
pub fn copy_data_inputs(v: &Vec<DataInput>) -> (r: Vec<DataInput>)
    ensures
        r@.map_values(|d: DataInput| d@) == v@.map_values(|d: DataInput| d@),
{
    let ghost vw = v@.map_values(|d: DataInput| d@);
    let mut r: Vec<DataInput> = Vec::new();
    let mut i: usize = 0;
    while i < v.len()
        invariant
            i <= v@.len(),
            vw == v@.map_values(|d: DataInput| d@),
            r@.len() == i,
            forall|j: int| 0 <= j < i ==> r@.map_values(|d: DataInput| d@)[j] == vw[j],
        decreases v@.len() - i,
    {
        r.push(v[i].clone());
        i = i + 1;
    }
    assert(r@.map_values(|d: DataInput| d@) =~= vw);
    r
}

impl Clone for BlockTransaction {
    fn clone(&self) -> (r: Self)
        ensures
            r@ == self@,
    {
        let r = BlockTransaction {
            id: self.id.clone(),
            inputs: copy_boxes(&self.inputs),
            data_inputs: match &self.data_inputs {
                Some(dis) => Some(copy_data_inputs(dis)),
                None => None,
            },
            outputs: copy_boxes(&self.outputs),
        };
        assert(r@ =~= self@);
        r
    }
}

/// A block header as the node reports it on a chain slice.
pub struct Header {
    pub id: BlockId,
    pub parent_id: BlockId,
    pub height: u32,
    pub timestamp: u64,
}

impl Clone for Header {
    fn clone(&self) -> (r: Self)
        ensures
            r.id@ == self.id@,
            r.parent_id@ == self.parent_id@,
            r.height == self.height,
            r.timestamp == self.timestamp,
    {
        Header {
            id: self.id.clone(),
            parent_id: self.parent_id.clone(),
            height: self.height,
            timestamp: self.timestamp,
        }
    }
}

/// A full block: header plus ordered transactions.
pub struct FullBlock {
    pub header: Header,
    pub transactions: Vec<BlockTransaction>,
}

impl Clone for FullBlock {
    fn clone(&self) -> (r: Self)
        ensures
            r@ == self@,
    {
        let r = FullBlock {
            header: self.header.clone(),
            transactions: crate::model::copy_transactions(&self.transactions),
        };
        assert(r@ =~= self@);
        r
    }
}

impl View for FullBlock {
    type V = crate::model::BlockV;

    open spec fn view(&self) -> crate::model::BlockV {
        crate::model::BlockV {
            id: self.header.id@,
            parent_id: self.header.parent_id@,
            height: self.header.height,
            timestamp: self.header.timestamp,
            transactions: self.transactions@.map_values(|t: BlockTransaction| t@),
        }
    }
}

impl Block {
    /// Flatten a full block into the cache's block form.
    pub fn from(fb: FullBlock) -> (r: Block)
        ensures
            r@ == fb@,
    {
        let r = Block {
            id: fb.header.id,
            parent_id: fb.header.parent_id,
            height: fb.header.height,
            timestamp: fb.header.timestamp,
            transactions: fb.transactions,
        };
        assert(r@ =~= fb@);
        r
    }
}

/// A proof-bearing ledger input recovered from a resolved box: it references
/// the spent box and carries an empty proof and an empty context extension.
pub struct TxInput {
    pub box_id: Vec<u8>,
    pub proof: Vec<u8>,
    pub extension: Vec<RegisterValue>,
}

/// A box candidate: a box before its identifier and origin are assigned.
pub struct ErgoBoxCandidate {
    pub value: u64,
    pub ergo_tree: Vec<u8>,
    pub assets: Vec<Token>,
    pub additional_registers: Vec<RegisterValue>,
    pub creation_height: u32,
}

/// A transaction in the ledger form: proof-bearing inputs and candidate
/// outputs.
pub struct Transaction {
    pub inputs: Vec<TxInput>,
    pub data_inputs: Option<Vec<DataInput>>,
    pub output_candidates: Vec<ErgoBoxCandidate>,
}

impl BlockTransaction {
    /// Convert to the ledger form: each input keeps only the reference to the
    /// box it spends, with an empty proof, and each output is reduced to its
    /// candidate form (identifier and origin dropped).
    pub fn to_transaction(self) -> (r: Transaction)
        ensures
            r.inputs@.len() == self.inputs@.len(),
            forall|i: int| 0 <= i < r.inputs@.len() ==> {
                &&& r.inputs@[i].box_id@ == self@.inputs[i].box_id
                &&& r.inputs@[i].proof@ == Seq::<u8>::empty()
                &&& r.inputs@[i].extension@.len() == 0
            },
            match (r.data_inputs, self.data_inputs) {
                (Some(rd), Some(sd)) => rd@.map_values(|d: DataInput| d@)
                    == sd@.map_values(|d: DataInput| d@),
                (None, None) => true,
                _ => false,
            },
            r.output_candidates@.len() == self.outputs@.len(),
            forall|i: int| 0 <= i < r.output_candidates@.len() ==> {
                let c = #[trigger] r.output_candidates@[i];
                let o = self@.outputs[i];
                &&& c.value == o.value
                &&& c.ergo_tree@ == o.ergo_tree
                &&& c.assets@.map_values(|t: Token| t@) == o.assets
                &&& c.additional_registers@.map_values(|x: RegisterValue| x@)
                    == o.additional_registers
                &&& c.creation_height == o.creation_height
            },
    {
        let ghost selfv = self@;
        let mut inputs: Vec<TxInput> = Vec::new();
        let mut i: usize = 0;
        while i < self.inputs.len()
            invariant
                i <= self.inputs@.len(),
                selfv.inputs == self.inputs@.map_values(|b: ErgoBox| b@),
                inputs@.len() == i,
                forall|j: int| 0 <= j < i ==> {
                    &&& inputs@[j].box_id@ == selfv.inputs[j].box_id
                    &&& inputs@[j].proof@ == Seq::<u8>::empty()
                    &&& inputs@[j].extension@.len() == 0
                },
            decreases self.inputs@.len() - i,
        {
            inputs.push(TxInput {
                box_id: copy_bytes(&self.inputs[i].box_id),
                proof: Vec::new(),
                extension: Vec::new(),
            });
            i = i + 1;
        }
        let mut output_candidates: Vec<ErgoBoxCandidate> = Vec::new();
        let mut k: usize = 0;
        while k < self.outputs.len()
            invariant
                k <= self.outputs@.len(),
                selfv.outputs == self.outputs@.map_values(|b: ErgoBox| b@),
                output_candidates@.len() == k,
                forall|j: int| 0 <= j < k ==> {
                    let c = #[trigger] output_candidates@[j];
                    let o = selfv.outputs[j];
                    &&& c.value == o.value
                    &&& c.ergo_tree@ == o.ergo_tree
                    &&& c.assets@.map_values(|t: Token| t@) == o.assets
                    &&& c.additional_registers@.map_values(|x: RegisterValue| x@)
                        == o.additional_registers
                    &&& c.creation_height == o.creation_height
                },
            decreases self.outputs@.len() - k,
        {
            let b = &self.outputs[k];
            output_candidates.push(ErgoBoxCandidate {
                value: b.value,
                ergo_tree: copy_bytes(&b.ergo_tree),
                assets: copy_tokens(&b.assets),
                additional_registers: copy_registers(&b.additional_registers),
                creation_height: b.creation_height,
            });
            k = k + 1;
        }
        Transaction { inputs, data_inputs: self.data_inputs, output_candidates }
    }
}

} // verus!
