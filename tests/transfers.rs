use anchor_spl::associated_token::get_associated_token_address;
use cat_bridge::bridge::{
    AttestedMessage, Bridge, BridgeOutParams, InitializeParams, RegisterEmitterParams,
    TransferMode, FINALITY_CONFIRMED, HOME_CHAIN_ID,
};
use cat_bridge::error::BridgeError;
use cat_bridge::payload::{BridgeMessage, BridgePayload};
use cat_bridge::wide::U256;

const OWNER: [u8; 32] = [10u8; 32];
const MINT: [u8; 32] = [11u8; 32];
const EMITTER: [u8; 32] = [12u8; 32];
const COLLECTOR: [u8; 32] = [13u8; 32];
const OWNER_ACCOUNT: [u8; 32] = [14u8; 32];
const VAULT: [u8; 32] = [15u8; 32];
const USER: [u8; 32] = [16u8; 32];
const USER_ACCOUNT: [u8; 32] = [17u8; 32];
const FOREIGN: [u8; 32] = [18u8; 32];
const RECIPIENT: [u8; 32] = [19u8; 32];
const CONTRACT: [u8; 32] = [20u8; 32];

fn params(mode: TransferMode, supply: u64) -> InitializeParams {
    InitializeParams {
        owner: OWNER,
        token_mint: MINT,
        token_decimals: 9,
        emitter_address: EMITTER,
        fee_collector: COLLECTOR,
        mode,
        initial_supply: supply,
        owner_token_account: OWNER_ACCOUNT,
    }
}

fn canonical(fee: u64) -> Bridge {
    let mut b = Bridge::initialize(&params(TransferMode::Canonical, 5_000_000_000), fee);
    assert_eq!(
        b.register_emitter(OWNER, &RegisterEmitterParams { chain: 2, address: FOREIGN }),
        Ok(())
    );
    b
}

fn wrapped() -> Bridge {
    let mut b = Bridge::initialize(&params(TransferMode::Wrapped { vault: VAULT }, 0), 0);
    assert_eq!(
        b.register_emitter(OWNER, &RegisterEmitterParams { chain: 2, address: FOREIGN }),
        Ok(())
    );
    b
}

fn out(amount: u64, chain: u64) -> BridgeOutParams {
    BridgeOutParams { amount, recipient_chain: chain, recipient: RECIPIENT, recipient_contract: CONTRACT }
}

fn ata(wallet: &[u8; 32], mint: &[u8; 32]) -> [u8; 32] {
    get_associated_token_address(&(*wallet).into(), &(*mint).into()).to_bytes()
}

fn inbound(amount: u64, dest_wallet: [u8; 32], sequence: u64, emitter: [u8; 32]) -> AttestedMessage {
    let payload = BridgePayload {
        amount: U256::from_u64(amount),
        token_decimals: 8,
        source_token_address: CONTRACT,
        source_account_address: [21u8; 32],
        source_chain_id: U256::from_u64(2),
        dest_token_address: MINT,
        dest_account_address: dest_wallet,
        dest_chain_id: U256::from_u64(HOME_CHAIN_ID),
    };
    AttestedMessage {
        emitter_chain: 2,
        emitter_address: emitter,
        sequence,
        batch_id: 3,
        payload: BridgeMessage::CrossChainPayload { payload }.encode(),
    }
}

#[test]
fn initialize_sets_defaults_and_mints_supply() {
    let b = Bridge::initialize(&params(TransferMode::Canonical, 1_000), 7);
    assert_eq!(b.config.owner, OWNER);
    assert_eq!(b.config.batch_id, 0);
    assert_eq!(b.config.finality, FINALITY_CONFIRMED);
    assert_eq!(b.tokens.balance_of(&OWNER_ACCOUNT), 1_000);
    assert_eq!(b.tokens.total_supply(), 1_000);
    assert_eq!(b.outbox.fee(), 7);
    assert_eq!(b.emitters.home_chain_id(), HOME_CHAIN_ID);
}

#[test]
fn only_the_owner_administers() {
    let mut b = canonical(0);
    let reg = RegisterEmitterParams { chain: 3, address: FOREIGN };
    assert_eq!(b.register_emitter(USER, &reg), Err(BridgeError::AuthorizationError));
    assert!(!b.emitters.is_registered(3));
    let zero = RegisterEmitterParams { chain: 3, address: [0u8; 32] };
    assert_eq!(b.register_emitter(OWNER, &zero), Err(BridgeError::ValidationError));
    assert_eq!(b.transfer_ownership(USER, USER), Err(BridgeError::AuthorizationError));
    assert_eq!(b.config.owner, OWNER);
    assert_eq!(b.transfer_ownership(OWNER, USER), Ok(()));
    assert_eq!(b.config.owner, USER);
    assert_eq!(b.register_emitter(OWNER, &reg), Err(BridgeError::AuthorizationError));
    assert_eq!(b.register_emitter(USER, &reg), Ok(()));
    assert!(b.emitters.verify(3, &FOREIGN));
}

#[test]
fn bridge_out_to_unregistered_chain_has_no_effect() {
    let mut b = canonical(5);
    assert_eq!(b.native.mint(OWNER, 100), Ok(()));
    let r = b.bridge_out(OWNER, OWNER_ACCOUNT, &out(1_000_000_000, 4));
    assert_eq!(r, Err(BridgeError::ValidationError));
    assert_eq!(b.native.balance_of(&OWNER), 100);
    assert_eq!(b.native.balance_of(&COLLECTOR), 0);
    assert_eq!(b.tokens.balance_of(&OWNER_ACCOUNT), 5_000_000_000);
    assert_eq!(b.tokens.total_supply(), 5_000_000_000);
    assert_eq!(b.outbox.messages().len(), 0);
    assert_eq!(b.outbox.next_sequence(), 0);
}

#[test]
fn canonical_bridge_out_burns_pays_and_posts() {
    let mut b = canonical(5);
    assert_eq!(b.native.mint(OWNER, 100), Ok(()));
    let seq = b.bridge_out(OWNER, OWNER_ACCOUNT, &out(1_500_000_005, 2)).unwrap();
    assert_eq!(seq, 0);
    assert_eq!(b.native.balance_of(&OWNER), 95);
    assert_eq!(b.native.balance_of(&COLLECTOR), 5);
    assert_eq!(b.tokens.balance_of(&OWNER_ACCOUNT), 3_499_999_995);
    assert_eq!(b.tokens.total_supply(), 3_499_999_995);
    let posted = &b.outbox.messages()[0];
    assert_eq!(posted.sequence, 0);
    assert_eq!(posted.batch_id, 0);
    assert_eq!(posted.finality, FINALITY_CONFIRMED);
    let BridgeMessage::CrossChainPayload { payload } = BridgeMessage::decode(&posted.payload).unwrap();
    assert_eq!(payload.amount.to_u64(), Some(150_000_000));
    assert_eq!(payload.token_decimals, 9);
    assert_eq!(payload.source_token_address, EMITTER);
    assert_eq!(payload.source_account_address, OWNER_ACCOUNT);
    assert_eq!(payload.source_chain_id.to_u64(), Some(HOME_CHAIN_ID));
    assert_eq!(payload.dest_token_address, CONTRACT);
    assert_eq!(payload.dest_account_address, RECIPIENT);
    assert_eq!(payload.dest_chain_id.to_u64(), Some(2));
}

#[test]
fn two_outbound_calls_reserve_distinct_sequences() {
    let mut b = canonical(0);
    let s1 = b.bridge_out(OWNER, OWNER_ACCOUNT, &out(100, 2)).unwrap();
    let s2 = b.bridge_out(OWNER, OWNER_ACCOUNT, &out(100, 2)).unwrap();
    assert_ne!(s1, s2);
    assert_eq!(b.outbox.messages().len(), 2);
    assert_ne!(b.outbox.messages()[0].sequence, b.outbox.messages()[1].sequence);
}

#[test]
fn unpaid_fee_or_debit_aborts_everything() {
    let mut b = canonical(5);
    assert_eq!(b.native.mint(OWNER, 4), Ok(()));
    assert_eq!(
        b.bridge_out(OWNER, OWNER_ACCOUNT, &out(100, 2)),
        Err(BridgeError::CollaboratorError)
    );
    assert_eq!(b.tokens.balance_of(&OWNER_ACCOUNT), 5_000_000_000);
    assert_eq!(b.native.mint(OWNER, 1), Ok(()));
    assert_eq!(
        b.bridge_out(OWNER, OWNER_ACCOUNT, &out(5_000_000_001, 2)),
        Err(BridgeError::CollaboratorError)
    );
    assert_eq!(b.native.balance_of(&OWNER), 5);
    assert_eq!(b.native.balance_of(&COLLECTOR), 0);
    assert_eq!(b.outbox.next_sequence(), 0);
}

#[test]
fn wrapped_bridge_out_locks_in_the_vault() {
    let mut b = wrapped();
    assert_eq!(b.tokens.mint(USER_ACCOUNT, 2_000_000_000), Ok(()));
    assert_eq!(b.bridge_out(USER, USER_ACCOUNT, &out(1_500_000_005, 2)), Ok(0));
    assert_eq!(b.tokens.balance_of(&USER_ACCOUNT), 499_999_995);
    assert_eq!(b.tokens.balance_of(&VAULT), 1_500_000_005);
    assert_eq!(b.tokens.total_supply(), 2_000_000_000);
    let BridgeMessage::CrossChainPayload { payload } =
        BridgeMessage::decode(&b.outbox.messages()[0].payload).unwrap();
    assert_eq!(payload.amount.to_u64(), Some(150_000_000));
}

#[test]
fn wrapped_bridge_out_from_the_vault_itself_sends_nothing() {
    let mut b = wrapped();
    assert_eq!(b.tokens.mint(VAULT, 1_000), Ok(()));
    assert_eq!(b.bridge_out(USER, VAULT, &out(1_000, 2)), Ok(0));
    let BridgeMessage::CrossChainPayload { payload } =
        BridgeMessage::decode(&b.outbox.messages()[0].payload).unwrap();
    assert_eq!(payload.amount.to_u64(), Some(0));
}

#[test]
fn bridge_in_from_an_untrusted_emitter_fails() {
    let mut b = canonical(0);
    let msg = inbound(150_000_000, USER, 1, [99u8; 32]);
    assert_eq!(b.bridge_in(&msg, [1u8; 32], USER_ACCOUNT), Err(BridgeError::TrustError));
    assert_eq!(b.tokens.balance_of(&USER_ACCOUNT), 0);
    assert_eq!(b.tokens.total_supply(), 5_000_000_000);
    assert!(!b.received.is_claimed(2, 1));
    let mut msg = inbound(150_000_000, USER, 1, FOREIGN);
    msg.emitter_chain = 3;
    assert_eq!(b.bridge_in(&msg, [1u8; 32], USER_ACCOUNT), Err(BridgeError::TrustError));
    assert!(!b.received.is_claimed(3, 1));
}

#[test]
fn canonical_bridge_in_mints_and_claims_once() {
    let mut b = canonical(0);
    let msg = inbound(150_000_000, USER, 1, FOREIGN);
    assert_eq!(b.bridge_in(&msg, [1u8; 32], USER_ACCOUNT), Ok(()));
    assert_eq!(b.tokens.balance_of(&USER_ACCOUNT), 1_500_000_000);
    assert_eq!(b.tokens.total_supply(), 6_500_000_000);
    let record = b.received.record(2, 1).unwrap();
    assert_eq!(record.batch_id, 3);
    assert_eq!(record.message_hash, [1u8; 32]);
    assert_eq!(record.payload, msg.payload);
    assert_eq!(b.bridge_in(&msg, [2u8; 32], USER_ACCOUNT), Err(BridgeError::ReplayError));
    assert_eq!(b.tokens.balance_of(&USER_ACCOUNT), 1_500_000_000);
    assert_eq!(b.tokens.total_supply(), 6_500_000_000);
}

#[test]
fn bridge_in_rejects_a_foreign_variant() {
    let mut b = canonical(0);
    let mut msg = inbound(150_000_000, USER, 1, FOREIGN);
    msg.payload[0] = 7;
    assert_eq!(b.bridge_in(&msg, [1u8; 32], USER_ACCOUNT), Err(BridgeError::PayloadError));
    msg.payload.truncate(100);
    assert_eq!(b.bridge_in(&msg, [1u8; 32], USER_ACCOUNT), Err(BridgeError::PayloadError));
    assert!(!b.received.is_claimed(2, 1));
}

#[test]
fn bridge_in_amount_that_does_not_fit_fails() {
    let mut b = canonical(0);
    let mut msg = inbound(0, USER, 1, FOREIGN);
    msg.payload[1 + 8] = 1;
    assert_eq!(b.bridge_in(&msg, [1u8; 32], USER_ACCOUNT), Err(BridgeError::ArithmeticError));
    let msg = inbound(u64::MAX, USER, 1, FOREIGN);
    assert_eq!(b.bridge_in(&msg, [1u8; 32], USER_ACCOUNT), Err(BridgeError::ArithmeticError));
    assert!(!b.received.is_claimed(2, 1));
}

#[test]
fn wrapped_bridge_in_releases_to_the_associated_account() {
    let mut b = wrapped();
    assert_eq!(b.tokens.mint(VAULT, 2_000_000_000), Ok(()));
    let dest = ata(&USER, &MINT);
    assert_ne!(dest, USER);
    let msg = inbound(150_000_000, USER, 4, FOREIGN);
    assert_eq!(b.bridge_in(&msg, [5u8; 32], dest), Ok(()));
    assert_eq!(b.tokens.balance_of(&dest), 1_500_000_000);
    assert_eq!(b.tokens.balance_of(&VAULT), 500_000_000);
    assert!(b.received.is_claimed(2, 4));
}

#[test]
fn wrapped_bridge_in_to_another_account_fails() {
    let mut b = wrapped();
    assert_eq!(b.tokens.mint(VAULT, 2_000_000_000), Ok(()));
    let msg = inbound(150_000_000, USER, 4, FOREIGN);
    assert_eq!(b.bridge_in(&msg, [5u8; 32], USER), Err(BridgeError::ValidationError));
    assert_eq!(b.bridge_in(&msg, [5u8; 32], USER_ACCOUNT), Err(BridgeError::ValidationError));
    assert_eq!(b.tokens.balance_of(&VAULT), 2_000_000_000);
    assert!(!b.received.is_claimed(2, 4));
}

#[test]
fn wrapped_bridge_in_beyond_the_vault_fails_and_stays_retryable() {
    let mut b = wrapped();
    let dest = ata(&USER, &MINT);
    let msg = inbound(150_000_000, USER, 4, FOREIGN);
    assert_eq!(b.bridge_in(&msg, [5u8; 32], dest), Err(BridgeError::CollaboratorError));
    assert!(!b.received.is_claimed(2, 4));
    assert_eq!(b.tokens.mint(VAULT, 1_500_000_000), Ok(()));
    assert_eq!(b.bridge_in(&msg, [5u8; 32], dest), Ok(()));
    assert_eq!(b.tokens.balance_of(&dest), 1_500_000_000);
}

#[test]
fn only_the_owner_mints() {
    let mut b = canonical(0);
    assert_eq!(b.mint_tokens(USER, USER_ACCOUNT, 10), Err(BridgeError::AuthorizationError));
    assert_eq!(b.tokens.balance_of(&USER_ACCOUNT), 0);
    assert_eq!(b.mint_tokens(OWNER, USER_ACCOUNT, 10), Ok(()));
    assert_eq!(b.tokens.balance_of(&USER_ACCOUNT), 10);
    assert_eq!(b.tokens.total_supply(), 5_000_000_010);
    assert_eq!(b.mint_tokens(OWNER, USER_ACCOUNT, u64::MAX), Err(BridgeError::CollaboratorError));
    assert_eq!(b.tokens.total_supply(), 5_000_000_010);
}
