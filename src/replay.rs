//! The claim-once record of processed inbound messages.
use vstd::prelude::*;

use crate::error::BridgeError;
use crate::slot_map::{SlotKey, SlotMap};

verus! {

/// The slot an inbound message claims: its emitter chain and sequence number.
#[derive(Clone, Copy, Debug, PartialEq, Eq, Structural)]
pub struct MessageSlot {
    pub chain: u64,
    pub sequence: u64,
}

impl SlotKey for MessageSlot {
    fn same_key(&self, other: &MessageSlot) -> (r: bool) {
        self.chain == other.chain && self.sequence == other.sequence
    }
}

/// The permanent proof that a message was processed, kept for audit.
#[derive(Debug)]
pub struct ReceivedMessage {
    pub batch_id: u32,
    pub message_hash: [u8; 32],
    pub payload: Vec<u8>,
}

/// Whether a claim of `slot` succeeds on the ledger `m`.
pub open spec fn can_claim(m: Map<MessageSlot, ReceivedMessage>, slot: MessageSlot) -> bool {
    !m.contains_key(slot)
}

/// Processed messages by slot. Records are only ever added.
pub struct ReplayLedger {
    received: SlotMap<MessageSlot, ReceivedMessage>,
}

impl ReplayLedger {
    pub closed spec fn view(&self) -> Map<MessageSlot, ReceivedMessage> {
        self.received@
    }

    pub closed spec fn wf(&self) -> bool {
        self.received.wf()
    }

    pub fn new() -> (r: ReplayLedger)
        ensures
            r.wf(),
            r@ == Map::<MessageSlot, ReceivedMessage>::empty(),
    {
        ReplayLedger { received: SlotMap::new() }
    }

    /// Creates the record of `(chain, sequence)`. Fails with `ReplayError`,
    /// changing nothing, when that slot already holds a record.
    pub fn claim(
        &mut self,
        chain: u64,
        sequence: u64,
        batch_id: u32,
        message_hash: [u8; 32],
        payload: Vec<u8>,
    ) -> (r: Result<(), BridgeError>)
        requires
            old(self).wf(),
        ensures
            final(self).wf(),
            r.is_ok() <==> can_claim(old(self)@, MessageSlot { chain, sequence }),
            r matches Err(e) ==> e == BridgeError::ReplayError,
            r.is_ok() ==> final(self)@ == old(self)@.insert(
                MessageSlot { chain, sequence },
                ReceivedMessage { batch_id, message_hash, payload },
            ),
            r.is_err() ==> final(self)@ == old(self)@,
    {
        let slot = MessageSlot { chain, sequence };
        if self.received.contains_key(&slot) {
            return Err(BridgeError::ReplayError);
        }
        self.received.insert(slot, ReceivedMessage { batch_id, message_hash, payload });
        Ok(())
    }

    /// Whether `(chain, sequence)` has been claimed.
    pub fn is_claimed(&self, chain: u64, sequence: u64) -> (r: bool)
        requires
            self.wf(),
        ensures
            r == self@.contains_key(MessageSlot { chain, sequence }),
    {
        self.received.contains_key(&MessageSlot { chain, sequence })
    }

    /// The record of `(chain, sequence)`, if claimed.
    pub fn record(&self, chain: u64, sequence: u64) -> (r: Option<&ReceivedMessage>)
        requires
            self.wf(),
        ensures
            r.is_some() <==> self@.contains_key(MessageSlot { chain, sequence }),
            r matches Some(v) ==> *v == self@[MessageSlot { chain, sequence }],
    {
        self.received.get(&MessageSlot { chain, sequence })
    }
}

/// A slot can be claimed once: the first claim succeeds and a later claim of
/// it fails, whatever record the first one stored.
pub proof fn lemma_claim_once(
    m: Map<MessageSlot, ReceivedMessage>,
    slot: MessageSlot,
    first: ReceivedMessage,
)
    requires
        !m.contains_key(slot),
    ensures
        can_claim(m, slot),
        !can_claim(m.insert(slot, first), slot),
{
}

} // verus!
