//! The outbound side of the attested-messaging protocol: the protocol fee and
//! the sequence counter, and the messages submitted so far.
use vstd::prelude::*;

use crate::error::BridgeError;

verus! {

/// A message handed to the messaging protocol.
#[derive(Debug)]
pub struct PostedMessage {
    pub sequence: u64,
    pub batch_id: u32,
    pub finality: u8,
    pub payload: Vec<u8>,
}

/// Submitted messages, in order. Each submission reserves the next sequence
/// number once and uses that one value for everything it derives.
pub struct Outbox {
    fee: u64,
    next_sequence: u64,
    messages: Vec<PostedMessage>,
}

/// Whether `after` follows `before` by one submission that reserved `s`.
pub open spec fn reserved(before: Outbox, after: Outbox, s: u64) -> bool {
    s == before.next() && after.next() == s + 1 && after@.len() == before@.len() + 1
        && after@.last().sequence == s
}

/// Whether no two messages of `s` share a sequence number.
pub open spec fn sequences_distinct(s: Seq<PostedMessage>) -> bool {
    forall|i: int, j: int|
        0 <= i < s.len() && 0 <= j < s.len() && i != j ==> #[trigger] s[i].sequence
            != #[trigger] s[j].sequence
}

impl Outbox {
    pub closed spec fn view(&self) -> Seq<PostedMessage> {
        self.messages@
    }

    pub closed spec fn next(&self) -> u64 {
        self.next_sequence
    }

    pub closed spec fn fee_spec(&self) -> u64 {
        self.fee
    }

    /// The message at position `i` carries sequence number `i`.
    pub closed spec fn wf(&self) -> bool {
        &&& self.next_sequence == self.messages@.len()
        &&& forall|i: int| 0 <= i < self.messages@.len() ==> #[trigger] self.messages@[i].sequence == i
    }

    pub fn new(fee: u64) -> (r: Outbox)
        ensures
            r.wf(),
            r@ == Seq::<PostedMessage>::empty(),
            r.next() == 0,
            r.fee_spec() == fee,
    {
        Outbox { fee, next_sequence: 0, messages: Vec::new() }
    }

    /// The fee the protocol currently charges per message.
    pub fn fee(&self) -> (r: u64)
        ensures
            r == self.fee_spec(),
    {
        self.fee
    }

    /// The sequence number the next submission will reserve.
    pub fn next_sequence(&self) -> (r: u64)
        ensures
            r == self.next(),
    {
        self.next_sequence
    }

    pub fn messages(&self) -> (r: &Vec<PostedMessage>)
        ensures
            r@ == self@,
    {
        &self.messages
    }

    /// Submits `payload`, reserving the next sequence number, and returns
    /// it. Fails with `CollaboratorError`, changing nothing, when the counter
    /// is exhausted.
    pub fn post(&mut self, batch_id: u32, finality: u8, payload: Vec<u8>) -> (r: Result<
        u64,
        BridgeError,
    >)
        requires
            old(self).wf(),
        ensures
            final(self).wf(),
            final(self).fee_spec() == old(self).fee_spec(),
            r.is_ok() <==> old(self).next() < u64::MAX,
            r matches Err(e) ==> e == BridgeError::CollaboratorError,
            r matches Ok(s) ==> reserved(*old(self), *final(self), s) && final(self)@ == old(
                self,
            )@.push(PostedMessage { sequence: s, batch_id, finality, payload }),
            r.is_err() ==> final(self)@ == old(self)@ && final(self).next() == old(self).next(),
    {
        if self.next_sequence == u64::MAX {
            return Err(BridgeError::CollaboratorError);
        }
        let sequence = self.next_sequence;
        self.messages.push(PostedMessage { sequence, batch_id, finality, payload });
        self.next_sequence = sequence + 1;
        Ok(sequence)
    }
}

/// No two submitted messages share a sequence number.
pub proof fn lemma_sequences_distinct(o: Outbox)
    requires
        o.wf(),
    ensures
        sequences_distinct(o@),
{
}

/// Two submissions made one after the other reserve distinct sequence numbers.
pub proof fn lemma_back_to_back_distinct(a: Outbox, b: Outbox, c: Outbox, s1: u64, s2: u64)
    requires
        reserved(a, b, s1),
        reserved(b, c, s2),
    ensures
        s1 != s2,
        s2 == s1 + 1,
{
}

} // verus!
