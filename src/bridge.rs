//! The transfer engine: configuration, administration, and the outbound and
//! inbound transitions in both operating modes. Every transition works on
//! copies of what it may change and commits them only once nothing can fail
//! any more, so a failure leaves the bridge exactly as it was.
use vstd::prelude::*;

use crate::address::{associated_account_of, associated_token_address};
use crate::error::BridgeError;
use crate::ledger::{
    balance, burned, can_burn, can_mint, can_transfer, minted, transferred, TokenLedger,
};
use crate::messaging::{reserved, Outbox};
use crate::normalize::{denormalize, denormalized, normalize, normalized};
use crate::payload::{is_transfer_message, message_bytes, BridgeMessage, BridgePayload};
use crate::registry::{trusts, EmitterRegistry};
use crate::replay::{can_claim, MessageSlot, ReplayLedger};
use crate::slot_map::SlotKey;
use crate::wide::U256;

verus! {

/// Chain id of the home ledger in the messaging protocol.
pub const HOME_CHAIN_ID: u64 = 1;

/// Finality level of "confirmed" in the messaging protocol.
pub const FINALITY_CONFIRMED: u8 = 0;

/// How value leaves and enters the home ledger.
#[derive(Clone, Copy, Debug, PartialEq, Eq)]
pub enum TransferMode {
    /// Lock in and release from a bridge-owned vault account.
    Wrapped { vault: [u8; 32] },
    /// Burn on the way out, mint on the way in.
    Canonical,
}

/// The singleton configuration; only `owner` changes after initialization.
#[derive(Clone, Copy, Debug, PartialEq, Eq)]
pub struct BridgeConfig {
    pub owner: [u8; 32],
    pub token_mint: [u8; 32],
    pub token_decimals: u8,
    /// The bridge's own emitter identity, sent as the source token address.
    pub emitter_address: [u8; 32],
    pub fee_collector: [u8; 32],
    pub batch_id: u32,
    pub finality: u8,
    pub mode: TransferMode,
}

/// What `initialize` is given.
#[derive(Clone, Copy, Debug, PartialEq, Eq)]
pub struct InitializeParams {
    pub owner: [u8; 32],
    pub token_mint: [u8; 32],
    pub token_decimals: u8,
    pub emitter_address: [u8; 32],
    pub fee_collector: [u8; 32],
    pub mode: TransferMode,
    /// Minted into `owner_token_account` at initialization.
    pub initial_supply: u64,
    pub owner_token_account: [u8; 32],
}

#[derive(Clone, Copy, Debug, PartialEq, Eq)]
pub struct RegisterEmitterParams {
    pub chain: u64,
    pub address: [u8; 32],
}

#[derive(Clone, Copy, Debug, PartialEq, Eq)]
pub struct BridgeOutParams {
    /// In native units of the token.
    pub amount: u64,
    pub recipient_chain: u64,
    pub recipient: [u8; 32],
    pub recipient_contract: [u8; 32],
}

/// An inbound message as the messaging protocol delivers it, after its own
/// signature and quorum checks.
#[derive(Debug)]
pub struct AttestedMessage {
    pub emitter_chain: u64,
    pub emitter_address: [u8; 32],
    pub sequence: u64,
    pub batch_id: u32,
    pub payload: Vec<u8>,
}

/// The bridge's records, and the ledgers and protocol it works with.
pub struct Bridge {
    pub config: BridgeConfig,
    pub emitters: EmitterRegistry,
    pub received: ReplayLedger,
    /// The bridged token.
    pub tokens: TokenLedger,
    /// The host's native currency, in which protocol fees are paid.
    pub native: TokenLedger,
    pub outbox: Outbox,
}

/// Whether two bridges hold the same records and balances.
pub open spec fn same_state(a: Bridge, b: Bridge) -> bool {
    &&& a.config == b.config
    &&& a.emitters@ == b.emitters@
    &&& a.emitters.home() == b.emitters.home()
    &&& a.received@ == b.received@
    &&& a.tokens@ == b.tokens@
    &&& a.tokens.total() == b.tokens.total()
    &&& a.native@ == b.native@
    &&& a.native.total() == b.native.total()
    &&& a.outbox@ == b.outbox@
    &&& a.outbox.next() == b.outbox.next()
    &&& a.outbox.fee_spec() == b.outbox.fee_spec()
}

/// What the vault gains from a lock of `amount` taken from `source`.
pub open spec fn locked_amount(m: Map<[u8; 32], u64>, source: [u8; 32], vault: [u8; 32], amount: u64) -> int {
    balance(transferred(m, source, vault, amount), vault) - balance(m, vault)
}

/// The native amount an outbound transfer actually takes in.
pub open spec fn debited_amount(b: Bridge, source: [u8; 32], amount: u64) -> nat {
    match b.config.mode {
        TransferMode::Wrapped { vault } => locked_amount(b.tokens@, source, vault, amount) as nat,
        TransferMode::Canonical => amount as nat,
    }
}

/// Whether the local debit of an outbound transfer succeeds.
pub open spec fn can_debit(b: Bridge, source: [u8; 32], amount: u64) -> bool {
    match b.config.mode {
        TransferMode::Wrapped { vault } => can_transfer(b.tokens@, source, vault, amount),
        TransferMode::Canonical => can_burn(b.tokens@, b.tokens.total(), source, amount),
    }
}

/// The failure of `bridge_out`, if it fails: the checks in the order they are made.
pub open spec fn bridge_out_error(b: Bridge, caller: [u8; 32], source: [u8; 32], p: BridgeOutParams) -> Option<BridgeError> {
    if !b.emitters@.contains_key(p.recipient_chain) {
        Some(BridgeError::ValidationError)
    } else if b.outbox.fee_spec() > 0 && !can_transfer(b.native@, caller, b.config.fee_collector, b.outbox.fee_spec()) {
        Some(BridgeError::CollaboratorError)
    } else if !can_debit(b, source, p.amount) {
        Some(BridgeError::CollaboratorError)
    } else if normalized(debited_amount(b, source, p.amount), b.config.token_decimals as nat) > u64::MAX {
        Some(BridgeError::ArithmeticError)
    } else if b.outbox.next() == u64::MAX {
        Some(BridgeError::CollaboratorError)
    } else {
        None
    }
}

/// Whether `m` is the message an outbound transfer of `wire_amount` (at
/// wire precision) from `source` sends under configuration `c`.
pub open spec fn is_outbound_message(m: BridgeMessage, c: BridgeConfig, source: [u8; 32], p: BridgeOutParams, wire_amount: nat) -> bool {
    match m {
        BridgeMessage::CrossChainPayload { payload } => {
            &&& payload.amount.value() == wire_amount
            &&& payload.token_decimals == c.token_decimals
            &&& payload.source_token_address == c.emitter_address
            &&& payload.source_account_address == source
            &&& payload.source_chain_id.value() == HOME_CHAIN_ID
            &&& payload.dest_token_address == p.recipient_contract
            &&& payload.dest_account_address == p.recipient
            &&& payload.dest_chain_id.value() == p.recipient_chain
        },
    }
}

/// The message an attested payload carries.
pub open spec fn decoded(b: Seq<u8>) -> BridgePayload {
    let m = choose|m: BridgeMessage| message_bytes(m) == b;
    match m {
        BridgeMessage::CrossChainPayload { payload } => payload,
    }
}

/// The native amount an inbound transfer of payload `p` credits.
pub open spec fn credited_amount(b: Bridge, p: BridgePayload) -> nat {
    denormalized(p.amount.value(), b.config.token_decimals as nat)
}

/// Whether the local credit of an inbound transfer succeeds.
pub open spec fn can_credit(b: Bridge, dest: [u8; 32], amount: u64) -> bool {
    match b.config.mode {
        TransferMode::Wrapped { vault } => can_transfer(b.tokens@, vault, dest, amount),
        TransferMode::Canonical => can_mint(b.tokens@, b.tokens.total(), dest, amount),
    }
}

/// The token balances after a successful credit.
pub open spec fn credited(b: Bridge, dest: [u8; 32], amount: u64) -> Map<[u8; 32], u64> {
    match b.config.mode {
        TransferMode::Wrapped { vault } => transferred(b.tokens@, vault, dest, amount),
        TransferMode::Canonical => minted(b.tokens@, dest, amount),
    }
}

/// The failure of `bridge_in`, if it fails: the checks in the order they are made.
pub open spec fn bridge_in_error(b: Bridge, msg: AttestedMessage, dest: [u8; 32]) -> Option<BridgeError> {
    let p = decoded(msg.payload@);
    if !is_transfer_message(msg.payload@) {
        Some(BridgeError::PayloadError)
    } else if !trusts(b.emitters@, msg.emitter_chain, msg.emitter_address) {
        Some(BridgeError::TrustError)
    } else if b.config.mode is Wrapped && associated_account_of(p.dest_account_address, b.config.token_mint) != dest {
        Some(BridgeError::ValidationError)
    } else if p.amount.value() > u64::MAX || credited_amount(b, p) > u64::MAX {
        Some(BridgeError::ArithmeticError)
    } else if !can_credit(b, dest, credited_amount(b, p) as u64) {
        Some(BridgeError::CollaboratorError)
    } else if !can_claim(b.received@, MessageSlot { chain: msg.emitter_chain, sequence: msg.sequence }) {
        Some(BridgeError::ReplayError)
    } else {
        None
    }
}

impl Bridge {
    pub open spec fn wf(&self) -> bool {
        &&& self.emitters.wf()
        &&& self.emitters.home() == HOME_CHAIN_ID
        &&& self.received.wf()
        &&& self.tokens.wf()
        &&& self.native.wf()
        &&& self.outbox.wf()
    }

    /// Sets up the bridge: the configuration with batch id 0 and confirmed
    /// finality, empty registries, and `initial_supply` tokens minted to the
    /// owner's token account.
    pub fn initialize(params: &InitializeParams, protocol_fee: u64) -> (r: Bridge)
        ensures
            r.wf(),
            r.config == (BridgeConfig {
                owner: params.owner,
                token_mint: params.token_mint,
                token_decimals: params.token_decimals,
                emitter_address: params.emitter_address,
                fee_collector: params.fee_collector,
                batch_id: 0,
                finality: FINALITY_CONFIRMED,
                mode: params.mode,
            }),
            r.emitters@ == Map::<u64, [u8; 32]>::empty(),
            r.received@ == Map::<MessageSlot, crate::replay::ReceivedMessage>::empty(),
            r.tokens@ == Map::<[u8; 32], u64>::empty().insert(params.owner_token_account, params.initial_supply),
            r.tokens.total() == params.initial_supply,
            r.native@ == Map::<[u8; 32], u64>::empty(),
            r.outbox@.len() == 0,
            r.outbox.next() == 0,
            r.outbox.fee_spec() == protocol_fee,
    {
        let config = BridgeConfig {
            owner: params.owner,
            token_mint: params.token_mint,
            token_decimals: params.token_decimals,
            emitter_address: params.emitter_address,
            fee_collector: params.fee_collector,
            batch_id: 0,
            finality: FINALITY_CONFIRMED,
            mode: params.mode,
        };
        let mut tokens = TokenLedger::new();
        let minted = tokens.mint(params.owner_token_account, params.initial_supply);
        assert(minted.is_ok());
        Bridge {
            config,
            emitters: EmitterRegistry::new(HOME_CHAIN_ID),
            received: ReplayLedger::new(),
            tokens,
            native: TokenLedger::new(),
            outbox: Outbox::new(protocol_fee),
        }
    }

    /// Hands ownership to `new_owner`. Fails with `AuthorizationError`,
    /// changing nothing, unless `caller` is the owner.
    pub fn transfer_ownership(&mut self, caller: [u8; 32], new_owner: [u8; 32]) -> (r: Result<(), BridgeError>)
        requires
            old(self).wf(),
        ensures
            final(self).wf(),
            r.is_ok() <==> caller == old(self).config.owner,
            r matches Err(e) ==> e == BridgeError::AuthorizationError,
            r.is_err() ==> same_state(*final(self), *old(self)),
            r.is_ok() ==> same_state(*final(self), Bridge { config: BridgeConfig { owner: new_owner, ..old(self).config }, ..*old(self) }),
    {
        if !caller.same_key(&self.config.owner) {
            return Err(BridgeError::AuthorizationError);
        }
        self.config.owner = new_owner;
        Ok(())
    }

    /// Mints `amount` new tokens into `account`. Fails with
    /// `AuthorizationError` unless `caller` is the owner, then with
    /// `CollaboratorError` when the supply or the balance would overflow; a
    /// failure changes nothing.
    pub fn mint_tokens(&mut self, caller: [u8; 32], account: [u8; 32], amount: u64) -> (r: Result<(), BridgeError>)
        requires
            old(self).wf(),
        ensures
            final(self).wf(),
            caller != old(self).config.owner ==> r == Err::<(), BridgeError>(BridgeError::AuthorizationError),
            caller == old(self).config.owner ==> (r.is_ok() <==> can_mint(old(self).tokens@, old(self).tokens.total(), account, amount)),
            caller == old(self).config.owner && r.is_err() ==> r == Err::<(), BridgeError>(BridgeError::CollaboratorError),
            r.is_err() ==> same_state(*final(self), *old(self)),
            r.is_ok() ==> final(self).tokens@ == minted(old(self).tokens@, account, amount)
                && final(self).tokens.total() == old(self).tokens.total() + amount,
            final(self).config == old(self).config,
            final(self).emitters@ == old(self).emitters@,
            final(self).emitters.home() == old(self).emitters.home(),
            final(self).received@ == old(self).received@,
            final(self).native@ == old(self).native@,
            final(self).native.total() == old(self).native.total(),
            final(self).outbox@ == old(self).outbox@,
            final(self).outbox.next() == old(self).outbox.next(),
            final(self).outbox.fee_spec() == old(self).outbox.fee_spec(),
    {
        if !caller.same_key(&self.config.owner) {
            return Err(BridgeError::AuthorizationError);
        }
        self.tokens.mint(account, amount)
    }

    /// Registers the trusted emitter of a foreign chain (an upsert). Fails
    /// with `AuthorizationError` unless `caller` is the owner, then with
    /// `ValidationError` on a zero or home chain id or an all-zero address;
    /// a failure changes nothing.
    pub fn register_emitter(&mut self, caller: [u8; 32], params: &RegisterEmitterParams) -> (r: Result<(), BridgeError>)
        requires
            old(self).wf(),
        ensures
            final(self).wf(),
            caller != old(self).config.owner ==> r == Err::<(), BridgeError>(BridgeError::AuthorizationError),
            caller == old(self).config.owner ==> (r.is_ok() <==> crate::registry::valid_emitter(HOME_CHAIN_ID, params.chain, params.address)),
            caller == old(self).config.owner && r.is_err() ==> r == Err::<(), BridgeError>(BridgeError::ValidationError),
            r.is_err() ==> same_state(*final(self), *old(self)),
            final(self).emitters@ == (if caller == old(self).config.owner {
                crate::registry::registered(old(self).emitters@, HOME_CHAIN_ID, params.chain, params.address)
            } else {
                old(self).emitters@
            }),
            final(self).config == old(self).config,
            final(self).received@ == old(self).received@,
            final(self).tokens@ == old(self).tokens@,
            final(self).tokens.total() == old(self).tokens.total(),
            final(self).native@ == old(self).native@,
            final(self).native.total() == old(self).native.total(),
            final(self).outbox@ == old(self).outbox@,
            final(self).outbox.next() == old(self).outbox.next(),
            final(self).outbox.fee_spec() == old(self).outbox.fee_spec(),
    {
        if !caller.same_key(&self.config.owner) {
            return Err(BridgeError::AuthorizationError);
        }
        self.emitters.register(params.chain, params.address)
    }

    /// Sends `params.amount` native units from `source` to a foreign chain:
    /// pays the protocol fee, debits the amount (locks it in the vault, or
    /// burns it), normalizes what was taken in to wire precision, and submits
    /// the encoded payload under one reserved sequence number, which it
    /// returns. Fails with `ValidationError` when no emitter is registered
    /// for the recipient chain, with `CollaboratorError` when the fee or the
    /// debit cannot be paid or the counter is exhausted, and with
    /// `ArithmeticError` when the normalized amount overflows; a failure
    /// changes nothing.
    pub fn bridge_out(&mut self, caller: [u8; 32], source: [u8; 32], params: &BridgeOutParams) -> (r: Result<u64, BridgeError>)
        requires
            old(self).wf(),
        ensures
            final(self).wf(),
            r.is_err() <==> bridge_out_error(*old(self), caller, source, *params).is_some(),
            r matches Err(e) ==> bridge_out_error(*old(self), caller, source, *params) == Some(e),
            r.is_err() ==> same_state(*final(self), *old(self)),
            r matches Ok(s) ==> {
                &&& reserved(old(self).outbox, final(self).outbox, s)
                &&& final(self).outbox@.drop_last() == old(self).outbox@
                &&& final(self).outbox@.last().batch_id == old(self).config.batch_id
                &&& final(self).outbox@.last().finality == old(self).config.finality
                &&& exists|m: BridgeMessage| #[trigger] is_outbound_message(m, old(self).config, source, *params, normalized(debited_amount(*old(self), source, params.amount), old(self).config.token_decimals as nat))
                    && final(self).outbox@.last().payload@ == message_bytes(m)
                &&& final(self).native@ == (if old(self).outbox.fee_spec() > 0 {
                    transferred(old(self).native@, caller, old(self).config.fee_collector, old(self).outbox.fee_spec())
                } else {
                    old(self).native@
                })
                &&& final(self).native.total() == old(self).native.total()
                &&& final(self).tokens@ == (match old(self).config.mode {
                    TransferMode::Wrapped { vault } => transferred(old(self).tokens@, source, vault, params.amount),
                    TransferMode::Canonical => burned(old(self).tokens@, source, params.amount),
                })
                &&& final(self).tokens.total() == (match old(self).config.mode {
                    TransferMode::Wrapped { .. } => old(self).tokens.total(),
                    TransferMode::Canonical => (old(self).tokens.total() - params.amount) as u64,
                })
                &&& final(self).config == old(self).config
                &&& final(self).emitters@ == old(self).emitters@
                &&& final(self).emitters.home() == old(self).emitters.home()
                &&& final(self).received@ == old(self).received@
                &&& final(self).outbox.fee_spec() == old(self).outbox.fee_spec()
            },
    {
        if !self.emitters.is_registered(params.recipient_chain) {
            return Err(BridgeError::ValidationError);
        }
        let config = self.config;
        let mut native = self.native.copy();
        let fee = self.outbox.fee();
        if fee > 0 {
            if let Err(e) = native.transfer(caller, config.fee_collector, fee) {
                return Err(e);
            }
        }
        let mut tokens = self.tokens.copy();
        let taken: u64 = match config.mode {
            TransferMode::Wrapped { vault } => {
                let before = tokens.balance_of(&vault);
                if let Err(e) = tokens.transfer(source, vault, params.amount) {
                    return Err(e);
                }
                let after = tokens.balance_of(&vault);
                after - before
            },
            TransferMode::Canonical => {
                if let Err(e) = tokens.burn(source, params.amount) {
                    return Err(e);
                }
                params.amount
            },
        };
        let wire = match normalize(taken, config.token_decimals) {
            Ok(v) => v,
            Err(e) => return Err(e),
        };
        let payload = BridgePayload {
            amount: U256::from_u64(wire),
            token_decimals: config.token_decimals,
            source_token_address: config.emitter_address,
            source_account_address: source,
            source_chain_id: U256::from_u64(HOME_CHAIN_ID),
            dest_token_address: params.recipient_contract,
            dest_account_address: params.recipient,
            dest_chain_id: U256::from_u64(params.recipient_chain),
        };
        let message = BridgeMessage::CrossChainPayload { payload };
        let bytes = message.encode();
        let sequence = match self.outbox.post(config.batch_id, config.finality, bytes) {
            Ok(s) => s,
            Err(e) => return Err(e),
        };
        assert(is_outbound_message(message, config, source, *params, normalized(debited_amount(*old(self), source, params.amount), config.token_decimals as nat)));
        assert(self.outbox@.drop_last() =~= old(self).outbox@);
        self.native = native;
        self.tokens = tokens;
        Ok(sequence)
    }

    /// Credits an attested inbound message to `dest`: decodes its payload,
    /// checks that its emitter is the one registered for its chain, (in
    /// wrapped mode) that `dest` is the associated token account of the
    /// payload's recipient, denormalizes the amount, releases it from the
    /// vault or mints it, and last claims the message's `(chain, sequence)`
    /// slot. Fails with `PayloadError`, `TrustError`, `ValidationError`,
    /// `ArithmeticError`, `CollaboratorError` or `ReplayError`, in that order
    /// of checks; a failure changes nothing.
    pub fn bridge_in(&mut self, message: &AttestedMessage, message_hash: [u8; 32], dest: [u8; 32]) -> (r: Result<(), BridgeError>)
        requires
            old(self).wf(),
        ensures
            final(self).wf(),
            r.is_err() <==> bridge_in_error(*old(self), *message, dest).is_some(),
            r matches Err(e) ==> bridge_in_error(*old(self), *message, dest) == Some(e),
            r.is_err() ==> same_state(*final(self), *old(self)),
            r.is_ok() ==> {
                let slot = MessageSlot { chain: message.emitter_chain, sequence: message.sequence };
                let amount = credited_amount(*old(self), decoded(message.payload@)) as u64;
                &&& final(self).tokens@ == credited(*old(self), dest, amount)
                &&& final(self).tokens.total() == (match old(self).config.mode {
                    TransferMode::Wrapped { .. } => old(self).tokens.total(),
                    TransferMode::Canonical => (old(self).tokens.total() + amount) as u64,
                })
                &&& final(self).received@ == old(self).received@.insert(slot, final(self).received@[slot])
                &&& final(self).received@[slot].batch_id == message.batch_id
                &&& final(self).received@[slot].message_hash == message_hash
                &&& final(self).received@[slot].payload@ == message.payload@
                &&& final(self).config == old(self).config
                &&& final(self).emitters@ == old(self).emitters@
                &&& final(self).emitters.home() == old(self).emitters.home()
                &&& final(self).native@ == old(self).native@
                &&& final(self).native.total() == old(self).native.total()
                &&& final(self).outbox@ == old(self).outbox@
                &&& final(self).outbox.next() == old(self).outbox.next()
                &&& final(self).outbox.fee_spec() == old(self).outbox.fee_spec()
            },
    {
        let decoded_message = match BridgeMessage::decode(message.payload.as_slice()) {
            Ok(m) => m,
            Err(e) => return Err(e),
        };
        proof {
            crate::payload::lemma_decode_encode(decoded_message);
            let chosen = choose|m: BridgeMessage| message_bytes(m) == message.payload@;
            assert(message_bytes(chosen) == message.payload@);
            assert(chosen == decoded_message);
        }
        if !self.emitters.verify(message.emitter_chain, &message.emitter_address) {
            return Err(BridgeError::TrustError);
        }
        let config = self.config;
        let BridgeMessage::CrossChainPayload { payload } = decoded_message;
        if let TransferMode::Wrapped { .. } = config.mode {
            let account = associated_token_address(&payload.dest_account_address, &config.token_mint);
            if !account.same_key(&dest) {
                return Err(BridgeError::ValidationError);
            }
        }
        let wire = match payload.amount.to_u64() {
            Some(v) => v,
            None => return Err(BridgeError::ArithmeticError),
        };
        let amount = match denormalize(wire, config.token_decimals) {
            Ok(v) => v,
            Err(e) => return Err(e),
        };
        let mut tokens = self.tokens.copy();
        let credit = match config.mode {
            TransferMode::Wrapped { vault } => tokens.transfer(vault, dest, amount),
            TransferMode::Canonical => tokens.mint(dest, amount),
        };
        if let Err(e) = credit {
            return Err(e);
        }
        let record = decoded_message.encode();
        if let Err(e) = self.received.claim(message.emitter_chain, message.sequence, message.batch_id, message_hash, record) {
            return Err(e);
        }
        self.tokens = tokens;
        Ok(())
    }
}

/// Once an inbound message has been processed, every later attempt to
/// process it fails, whatever account it names: its slot stays claimed.
pub proof fn lemma_bridge_in_once(b: Bridge, msg: AttestedMessage, dest: [u8; 32])
    requires
        b.received@.contains_key(MessageSlot { chain: msg.emitter_chain, sequence: msg.sequence }),
    ensures
        bridge_in_error(b, msg, dest).is_some(),
{
}

} // verus!
