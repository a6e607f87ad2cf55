//! The downstream envelope for transaction events: a compact JSON object,
//! keys in sorted order, with the transaction embedded as base64 of its
//! serialised bytes.
//!
//! Serialising the transaction itself is the caller's job; this module frames
//! already-serialised bytes.

use vstd::prelude::*;
use vstd::string::StringExecFns;
use crate::encoding::base64_of;
use crate::encoding::dec_of_int;
use crate::encoding::encode_base64;
use crate::encoding::encode_hex_lower;
use crate::encoding::hex_of;
use crate::encoding::i64_to_dec;
use crate::tx_event::TxEvent;
use crate::tx_event::TxEventV;

verus! {

/// The envelope text for one transaction event: the applied or unapplied
/// variant tag, then block identifier, height, timestamp and the base64 of
/// the serialised transaction, keys in sorted order.
pub open spec fn tx_envelope_chars(ev: TxEventV, tx_b64: Seq<char>) -> Seq<char> {
    (if ev.applied {
        "{\"AppliedEvent\":{\"block_id\":\""@
    } else {
        "{\"UnappliedEvent\":{\"block_id\":\""@
    }) + ev.block_id + "\",\"height\":"@ + dec_of_int(ev.block_height as int) + ",\"timestamp\":"@
        + dec_of_int(ev.timestamp as int) + ",\"tx\":\""@ + tx_b64 + "\"}}"@
}

/// Build the envelope for one event around the serialised bytes of its
/// transaction.
pub fn kafka_value(ev: &TxEvent, tx_cbor: &Vec<u8>) -> (r: String)
    ensures
        r@ == tx_envelope_chars(ev@, base64_of(tx_cbor@)),
{
    let tx_b64 = encode_base64(tx_cbor);
    let (applied, timestamp, block_height, block_id): (bool, i64, i32, &String) = match ev {
        TxEvent::AppliedTx { timestamp, tx: _, block_height, block_id } => (
            true,
            *timestamp,
            *block_height,
            block_id,
        ),
        TxEvent::UnappliedTx { timestamp, tx: _, block_height, block_id } => (
            false,
            *timestamp,
            *block_height,
            block_id,
        ),
    };
    let mut s = String::new();
    if applied {
        s.append("{\"AppliedEvent\":{\"block_id\":\"");
    } else {
        s.append("{\"UnappliedEvent\":{\"block_id\":\"");
    }
    s.append(block_id.as_str());
    s.append("\",\"height\":");
    let height_dec = i64_to_dec(block_height as i64);
    s.append(height_dec.as_str());
    s.append(",\"timestamp\":");
    let ts_dec = i64_to_dec(timestamp);
    s.append(ts_dec.as_str());
    s.append(",\"tx\":\"");
    s.append(tx_b64.as_str());
    s.append("\"}}");
    assert(s@ =~= tx_envelope_chars(ev@, base64_of(tx_cbor@)));
    s
}

/// The message key for one event: the hex of its transaction identifier.
pub fn kafka_key(ev: &TxEvent) -> (r: String)
    ensures
        r@ == hex_of(ev@.tx.id),
{
    match ev {
        TxEvent::AppliedTx { tx, .. } => encode_hex_lower(&tx.id.bytes),
        TxEvent::UnappliedTx { tx, .. } => encode_hex_lower(&tx.id.bytes),
    }
}

} // verus!
