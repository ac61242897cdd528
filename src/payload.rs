//! The wire format of a cross-chain transfer message.
//!
//! Layout: a one-byte variant tag, then `amount` (32 bytes, little-endian),
//! `token_decimals` (1 byte), the source token and account addresses (32 bytes
//! each), `source_chain_id` (32 bytes), the destination token and account
//! addresses (32 bytes each) and `dest_chain_id` (32 bytes).
use vstd::prelude::*;

use crate::error::BridgeError;
use crate::wide::U256;

verus! {

/// Tag of the transfer variant, the only one defined so far.
pub const TRANSFER_TAG: u8 = 0;

/// Length in bytes of an encoded transfer message.
pub const MESSAGE_LEN: usize = 226;

/// What one transfer carries across chains. `amount` is at wire precision.
#[derive(Clone, Copy, Debug, PartialEq, Eq)]
pub struct BridgePayload {
    pub amount: U256,
    pub token_decimals: u8,
    pub source_token_address: [u8; 32],
    pub source_account_address: [u8; 32],
    pub source_chain_id: U256,
    pub dest_token_address: [u8; 32],
    pub dest_account_address: [u8; 32],
    pub dest_chain_id: U256,
}

/// A message of the bridge; the tag on the wire names the variant.
#[derive(Clone, Copy, Debug, PartialEq, Eq)]
pub enum BridgeMessage {
    CrossChainPayload { payload: BridgePayload },
}

/// The bytes of a payload's fields, in wire order.
pub open spec fn payload_fields(p: BridgePayload) -> Seq<u8> {
    p.amount.bytes@ + seq![p.token_decimals] + p.source_token_address@
        + p.source_account_address@ + p.source_chain_id.bytes@ + p.dest_token_address@
        + p.dest_account_address@ + p.dest_chain_id.bytes@
}

/// The encoding of a message.
pub open spec fn message_bytes(m: BridgeMessage) -> Seq<u8> {
    match m {
        BridgeMessage::CrossChainPayload { payload } => seq![TRANSFER_TAG] + payload_fields(
            payload,
        ),
    }
}

/// Whether `b` has the shape of an encoded transfer message.
pub open spec fn is_transfer_message(b: Seq<u8>) -> bool {
    b.len() == MESSAGE_LEN && b[0] == TRANSFER_TAG
}

fn append_bytes(out: &mut Vec<u8>, b: &[u8; 32])
    ensures
        final(out)@ == old(out)@ + b@,
{
    let mut i: usize = 0;
    while i < 32
        invariant
            0 <= i <= 32,
            b@.len() == 32,
            out@ == old(out)@ + b@.subrange(0, i as int),
        decreases 32 - i,
    {
        out.push(b[i]);
        assert(old(out)@ + b@.subrange(0, i as int + 1) =~= (old(out)@ + b@.subrange(
            0,
            i as int,
        )).push(b[i as int]));
        i = i + 1;
    }
    assert(b@.subrange(0, 32) =~= b@);
}

fn read_bytes(bytes: &[u8], start: usize) -> (r: [u8; 32])
    requires
        start + 32 <= bytes@.len(),
        bytes@.len() == MESSAGE_LEN,
    ensures
        r@ == bytes@.subrange(start as int, start + 32),
{
    let mut r = [0u8; 32];
    let mut i: usize = 0;
    while i < 32
        invariant
            0 <= i <= 32,
            start + 32 <= bytes@.len(),
            bytes@.len() == MESSAGE_LEN,
            r@.len() == 32,
            forall|j: int| 0 <= j < i ==> r@[j] == bytes@[start + j],
        decreases 32 - i,
    {
        r[i] = bytes[start + i];
        i = i + 1;
    }
    assert(r@ =~= bytes@.subrange(start as int, start + 32));
    r
}

proof fn lemma_payload_fields_len(p: BridgePayload)
    ensures
        payload_fields(p).len() == MESSAGE_LEN - 1,
{
}

impl BridgeMessage {
    /// Encodes the message in the wire layout.
    pub fn encode(&self) -> (r: Vec<u8>)
        ensures
            r@ == message_bytes(*self),
            is_transfer_message(r@),
    {
        let BridgeMessage::CrossChainPayload { payload: p } = self;
        let mut out: Vec<u8> = Vec::new();
        out.push(TRANSFER_TAG);
        append_bytes(&mut out, &p.amount.bytes);
        out.push(p.token_decimals);
        append_bytes(&mut out, &p.source_token_address);
        append_bytes(&mut out, &p.source_account_address);
        append_bytes(&mut out, &p.source_chain_id.bytes);
        append_bytes(&mut out, &p.dest_token_address);
        append_bytes(&mut out, &p.dest_account_address);
        append_bytes(&mut out, &p.dest_chain_id.bytes);
        assert(out@ =~= message_bytes(*self));
        out
    }

    /// Decodes a message. Fails with `PayloadError` exactly when the bytes do
    /// not have the length of a transfer message or carry another tag.
    pub fn decode(bytes: &[u8]) -> (r: Result<BridgeMessage, BridgeError>)
        ensures
            r.is_ok() <==> is_transfer_message(bytes@),
            r matches Ok(m) ==> message_bytes(m) == bytes@,
            r matches Err(e) ==> e == BridgeError::PayloadError,
    {
        if bytes.len() != MESSAGE_LEN || bytes[0] != TRANSFER_TAG {
            return Err(BridgeError::PayloadError);
        }
        let amount = U256::from_le_bytes(read_bytes(bytes, 1));
        let token_decimals = bytes[33];
        let source_token_address = read_bytes(bytes, 34);
        let source_account_address = read_bytes(bytes, 66);
        let source_chain_id = U256::from_le_bytes(read_bytes(bytes, 98));
        let dest_token_address = read_bytes(bytes, 130);
        let dest_account_address = read_bytes(bytes, 162);
        let dest_chain_id = U256::from_le_bytes(read_bytes(bytes, 194));
        let payload = BridgePayload {
            amount,
            token_decimals,
            source_token_address,
            source_account_address,
            source_chain_id,
            dest_token_address,
            dest_account_address,
            dest_chain_id,
        };
        let m = BridgeMessage::CrossChainPayload { payload };
        assert(message_bytes(m) =~= bytes@);
        Ok(m)
    }
}

/// Two messages with the same encoding are the same message.
pub proof fn lemma_message_bytes_injective(m1: BridgeMessage, m2: BridgeMessage)
    requires
        message_bytes(m1) == message_bytes(m2),
    ensures
        m1 == m2,
{
    let BridgeMessage::CrossChainPayload { payload: p } = m1;
    let BridgeMessage::CrossChainPayload { payload: q } = m2;
    let b = message_bytes(m1);
    assert(b == message_bytes(m2));
    assert(p.amount.bytes@ =~= b.subrange(1, 33));
    assert(q.amount.bytes@ =~= b.subrange(1, 33));
    assert(p.source_token_address@ =~= b.subrange(34, 66));
    assert(q.source_token_address@ =~= b.subrange(34, 66));
    assert(p.source_account_address@ =~= b.subrange(66, 98));
    assert(q.source_account_address@ =~= b.subrange(66, 98));
    assert(p.source_chain_id.bytes@ =~= b.subrange(98, 130));
    assert(q.source_chain_id.bytes@ =~= b.subrange(98, 130));
    assert(p.dest_token_address@ =~= b.subrange(130, 162));
    assert(q.dest_token_address@ =~= b.subrange(130, 162));
    assert(p.dest_account_address@ =~= b.subrange(162, 194));
    assert(q.dest_account_address@ =~= b.subrange(162, 194));
    assert(p.dest_chain_id.bytes@ =~= b.subrange(194, 226));
    assert(q.dest_chain_id.bytes@ =~= b.subrange(194, 226));
    assert(p.token_decimals == b[33]);
    assert(q.token_decimals == b[33]);
    assert(p.amount.bytes =~= q.amount.bytes);
    assert(p.source_token_address =~= q.source_token_address);
    assert(p.source_account_address =~= q.source_account_address);
    assert(p.source_chain_id.bytes =~= q.source_chain_id.bytes);
    assert(p.dest_token_address =~= q.dest_token_address);
    assert(p.dest_account_address =~= q.dest_account_address);
    assert(p.dest_chain_id.bytes =~= q.dest_chain_id.bytes);
}

/// Decoding an encoded message gives the message back: the encoding has the
/// shape `decode` accepts, and no other message has the same bytes.
pub proof fn lemma_decode_encode(m: BridgeMessage)
    ensures
        is_transfer_message(message_bytes(m)),
        forall|r: BridgeMessage| #[trigger] message_bytes(r) == message_bytes(m) ==> r == m,
{
    let BridgeMessage::CrossChainPayload { payload: p } = m;
    lemma_payload_fields_len(p);
    assert forall|r: BridgeMessage| #[trigger] message_bytes(r) == message_bytes(m) implies r
        == m by {
        lemma_message_bytes_injective(r, m);
    }
}

} // verus!
