//! The downstream transaction schema: the shape in which a block transaction
//! is serialised for consumers, with the script carried as a hex string.
//!
//! Serialising these values is the caller's job; building them from block
//! transactions is decided and verified here.

use vstd::prelude::*;
use crate::client_model::BlockTransaction;
use crate::client_model::BlockTransactionV;
use crate::client_model::DataInput;
use crate::client_model::ErgoBox;
use crate::client_model::ErgoBoxV;
use crate::client_model::RegisterValue;
use crate::client_model::RegisterValueV;
use crate::client_model::Token;
use crate::client_model::TokenV;
use crate::client_model::TxId;
use crate::client_model::copy_registers;
use crate::client_model::copy_tokens;
use crate::encoding::encode_hex_lower;
use crate::encoding::hex_of;
use crate::model::copy_bytes;

verus! {

/// A token as the downstream schema carries it.
pub struct CborToken {
    pub token_id: Vec<u8>,
    pub amount: u64,
}

impl View for CborToken {
    type V = TokenV;

    open spec fn view(&self) -> TokenV {
        TokenV { token_id: self.token_id@, amount: self.amount }
    }
}

impl CborToken {
    pub fn from(t: Token) -> (r: CborToken)
        ensures
            r@ == t@,
    {
        CborToken { token_id: t.token_id, amount: t.amount }
    }
}

/// A data input as the downstream schema carries it.
pub struct CborDataInput {
    pub box_id: Vec<u8>,
}

impl View for CborDataInput {
    type V = Seq<u8>;

    open spec fn view(&self) -> Seq<u8> {
        self.box_id@
    }
}

impl CborDataInput {
    pub fn from(di: DataInput) -> (r: CborDataInput)
        ensures
            r@ == di@,
    {
        CborDataInput { box_id: di.box_id }
    }
}

/// A box as the downstream schema carries it: the script as a hex string.
pub struct CborErgoBox {
    pub box_id: Vec<u8>,
    pub value: u64,
    pub ergo_tree: String,
    pub assets: Vec<CborToken>,
    pub additional_registers: Vec<RegisterValue>,
    pub creation_height: u32,
    pub transaction_id: TxId,
    pub index: u16,
}

/// Mathematical image of a [`CborErgoBox`].
pub struct CborErgoBoxV {
    pub box_id: Seq<u8>,
    pub value: u64,
    pub ergo_tree: Seq<char>,
    pub assets: Seq<TokenV>,
    pub additional_registers: Seq<RegisterValueV>,
    pub creation_height: u32,
    pub transaction_id: Seq<u8>,
    pub index: u16,
}

impl View for CborErgoBox {
    type V = CborErgoBoxV;

    open spec fn view(&self) -> CborErgoBoxV {
        CborErgoBoxV {
            box_id: self.box_id@,
            value: self.value,
            ergo_tree: self.ergo_tree@,
            assets: self.assets@.map_values(|t: CborToken| t@),
            additional_registers: self.additional_registers@.map_values(|x: RegisterValue| x@),
            creation_height: self.creation_height,
            transaction_id: self.transaction_id@,
            index: self.index,
        }
    }
}

/// The downstream image of a box: the same fields, the script hex-encoded.
pub open spec fn cbor_box_of(b: ErgoBoxV) -> CborErgoBoxV {
    CborErgoBoxV {
        box_id: b.box_id,
        value: b.value,
        ergo_tree: hex_of(b.ergo_tree),
        assets: b.assets,
        additional_registers: b.additional_registers,
        creation_height: b.creation_height,
        transaction_id: b.transaction_id,
        index: b.index,
    }
}

impl CborErgoBox {
    pub fn from(b: ErgoBox) -> (r: CborErgoBox)
        ensures
            r@ == cbor_box_of(b@),
    {
        let ghost bv = b@;
        let mut assets: Vec<CborToken> = Vec::new();
        let mut i: usize = 0;
        while i < b.assets.len()
            invariant
                i <= b.assets@.len(),
                bv.assets == b.assets@.map_values(|t: Token| t@),
                assets@.len() == i,
                forall|j: int| 0 <= j < i ==> assets@.map_values(|t: CborToken| t@)[j]
                    == bv.assets[j],
            decreases b.assets@.len() - i,
        {
            assets.push(CborToken::from(b.assets[i].clone()));
            i = i + 1;
        }
        let r = CborErgoBox {
            box_id: b.box_id,
            value: b.value,
            ergo_tree: encode_hex_lower(&b.ergo_tree),
            assets,
            additional_registers: b.additional_registers,
            creation_height: b.creation_height,
            transaction_id: b.transaction_id,
            index: b.index,
        };
        assert(r@.assets =~= cbor_box_of(bv).assets);
        assert(r@ =~= cbor_box_of(bv));
        r
    }
}

/// A transaction as the downstream schema carries it.
pub struct CborBlockTransaction {
    pub id: TxId,
    pub inputs: Vec<CborErgoBox>,
    pub data_inputs: Option<Vec<CborDataInput>>,
    pub outputs: Vec<CborErgoBox>,
}

/// Mathematical image of a [`CborBlockTransaction`].
pub struct CborBlockTransactionV {
    pub id: Seq<u8>,
    pub inputs: Seq<CborErgoBoxV>,
    pub data_inputs: Option<Seq<Seq<u8>>>,
    pub outputs: Seq<CborErgoBoxV>,
}

impl View for CborBlockTransaction {
    type V = CborBlockTransactionV;

    open spec fn view(&self) -> CborBlockTransactionV {
        CborBlockTransactionV {
            id: self.id@,
            inputs: self.inputs@.map_values(|b: CborErgoBox| b@),
            data_inputs: match self.data_inputs {
                Some(dis) => Some(dis@.map_values(|d: CborDataInput| d@)),
                None => None,
            },
            outputs: self.outputs@.map_values(|b: CborErgoBox| b@),
        }
    }
}

/// The downstream image of a transaction: every box mapped by
/// [`cbor_box_of`], data inputs kept as identifiers.
pub open spec fn cbor_tx_of(t: BlockTransactionV) -> CborBlockTransactionV {
    CborBlockTransactionV {
        id: t.id,
        inputs: t.inputs.map_values(|b: ErgoBoxV| cbor_box_of(b)),
        data_inputs: t.data_inputs,
        outputs: t.outputs.map_values(|b: ErgoBoxV| cbor_box_of(b)),
    }
}

/// Map a box list into the downstream schema.
fn cbor_boxes_from(v: Vec<ErgoBox>) -> (r: Vec<CborErgoBox>)
    ensures
        r@.map_values(|b: CborErgoBox| b@) == v@.map_values(|b: ErgoBox| b@).map_values(
            |b: ErgoBoxV| cbor_box_of(b),
        ),
{
    let ghost vw = v@.map_values(|b: ErgoBox| b@);
    let mut r: Vec<CborErgoBox> = Vec::new();
    let mut i: usize = 0;
    while i < v.len()
        invariant
            i <= v@.len(),
            vw == v@.map_values(|b: ErgoBox| b@),
            r@.len() == i,
            forall|j: int| 0 <= j < i ==> r@.map_values(|b: CborErgoBox| b@)[j] == cbor_box_of(
                vw[j],
            ),
        decreases v@.len() - i,
    {
        r.push(CborErgoBox::from(v[i].clone()));
        i = i + 1;
    }
    assert(r@.map_values(|b: CborErgoBox| b@) =~= vw.map_values(|b: ErgoBoxV| cbor_box_of(b)));
    r
}

impl CborBlockTransaction {
    pub fn from(tx: BlockTransaction) -> (r: CborBlockTransaction)
        ensures
            r@ == cbor_tx_of(tx@),
    {
        let ghost txv = tx@;
        let data_inputs: Option<Vec<CborDataInput>> = match tx.data_inputs {
            Some(dis) => {
                let ghost dw = dis@.map_values(|d: DataInput| d@);
                let mut out: Vec<CborDataInput> = Vec::new();
                let mut i: usize = 0;
                while i < dis.len()
                    invariant
                        i <= dis@.len(),
                        dw == dis@.map_values(|d: DataInput| d@),
                        out@.len() == i,
                        forall|j: int| 0 <= j < i ==> out@.map_values(|d: CborDataInput| d@)[j]
                            == dw[j],
                    decreases dis@.len() - i,
                {
                    out.push(CborDataInput { box_id: copy_bytes(&dis[i].box_id) });
                    i = i + 1;
                }
                assert(out@.map_values(|d: CborDataInput| d@) =~= dw);
                Some(out)
            },
            None => None,
        };
        let r = CborBlockTransaction {
            id: tx.id,
            inputs: cbor_boxes_from(tx.inputs),
            data_inputs,
            outputs: cbor_boxes_from(tx.outputs),
        };
        assert(r@ =~= cbor_tx_of(txv));
        r
    }
}

} // verus!
