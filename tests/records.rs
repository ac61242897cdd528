use cat_bridge::error::BridgeError;
use cat_bridge::ledger::TokenLedger;
use cat_bridge::messaging::Outbox;
use cat_bridge::payload::{BridgeMessage, BridgePayload, MESSAGE_LEN, TRANSFER_TAG};
use cat_bridge::registry::{is_zero, EmitterRegistry};
use cat_bridge::replay::ReplayLedger;
use cat_bridge::wide::U256;

fn sample_payload() -> BridgePayload {
    BridgePayload {
        amount: U256::from_u64(150_000_000),
        token_decimals: 9,
        source_token_address: [1u8; 32],
        source_account_address: [2u8; 32],
        source_chain_id: U256::from_u64(1),
        dest_token_address: [3u8; 32],
        dest_account_address: [4u8; 32],
        dest_chain_id: U256::from_u64(2),
    }
}

#[test]
fn encoding_follows_the_wire_layout() {
    let bytes = BridgeMessage::CrossChainPayload { payload: sample_payload() }.encode();
    assert_eq!(bytes.len(), MESSAGE_LEN);
    assert_eq!(bytes.len(), 226);
    assert_eq!(bytes[0], TRANSFER_TAG);
    assert_eq!(&bytes[1..9], &150_000_000u64.to_le_bytes());
    assert!(bytes[9..33].iter().all(|&b| b == 0));
    assert_eq!(bytes[33], 9);
    assert!(bytes[34..66].iter().all(|&b| b == 1));
    assert!(bytes[66..98].iter().all(|&b| b == 2));
    assert_eq!(bytes[98], 1);
    assert!(bytes[130..162].iter().all(|&b| b == 3));
    assert!(bytes[162..194].iter().all(|&b| b == 4));
    assert_eq!(bytes[194], 2);
}

#[test]
fn decoding_an_encoding_gives_the_message_back() {
    let m = BridgeMessage::CrossChainPayload { payload: sample_payload() };
    let bytes = m.encode();
    assert_eq!(BridgeMessage::decode(&bytes), Ok(m));
}

#[test]
fn malformed_payloads_are_rejected() {
    let bytes = BridgeMessage::CrossChainPayload { payload: sample_payload() }.encode();
    assert_eq!(BridgeMessage::decode(&bytes[..225]), Err(BridgeError::PayloadError));
    assert_eq!(BridgeMessage::decode(&[]), Err(BridgeError::PayloadError));
    let mut longer = bytes.clone();
    longer.push(0);
    assert_eq!(BridgeMessage::decode(&longer), Err(BridgeError::PayloadError));
    let mut other_tag = bytes.clone();
    other_tag[0] = 1;
    assert_eq!(BridgeMessage::decode(&other_tag), Err(BridgeError::PayloadError));
}

#[test]
fn registered_emitter_is_trusted_and_no_other() {
    let mut reg = EmitterRegistry::new(1);
    let address = [9u8; 32];
    assert_eq!(reg.register(2, address), Ok(()));
    assert!(reg.verify(2, &address));
    let mut other = address;
    other[31] = 8;
    assert!(!reg.verify(2, &other));
    assert!(!reg.verify(3, &address));
    assert!(reg.is_registered(2));
    assert!(!reg.is_registered(3));
}

#[test]
fn registering_twice_changes_nothing() {
    let mut reg = EmitterRegistry::new(1);
    let address = [9u8; 32];
    assert_eq!(reg.register(5, address), Ok(()));
    assert_eq!(reg.register(5, address), Ok(()));
    assert_eq!(reg.emitter(5), Some(address));
    assert!(reg.verify(5, &address));
}

#[test]
fn registering_a_new_address_overwrites() {
    let mut reg = EmitterRegistry::new(1);
    assert_eq!(reg.register(5, [9u8; 32]), Ok(()));
    assert_eq!(reg.register(5, [7u8; 32]), Ok(()));
    assert!(reg.verify(5, &[7u8; 32]));
    assert!(!reg.verify(5, &[9u8; 32]));
}

#[test]
fn invalid_emitters_are_refused() {
    let mut reg = EmitterRegistry::new(1);
    assert_eq!(reg.register(0, [9u8; 32]), Err(BridgeError::ValidationError));
    assert_eq!(reg.register(1, [9u8; 32]), Err(BridgeError::ValidationError));
    assert_eq!(reg.register(2, [0u8; 32]), Err(BridgeError::ValidationError));
    assert!(!reg.is_registered(0));
    assert!(!reg.is_registered(1));
    assert!(!reg.is_registered(2));
    assert!(is_zero(&[0u8; 32]));
    let mut one = [0u8; 32];
    one[17] = 1;
    assert!(!is_zero(&one));
}

#[test]
fn a_slot_is_claimed_once() {
    let mut ledger = ReplayLedger::new();
    assert_eq!(ledger.claim(2, 7, 0, [1u8; 32], vec![1, 2, 3]), Ok(()));
    assert_eq!(ledger.claim(2, 7, 5, [2u8; 32], vec![4]), Err(BridgeError::ReplayError));
    let record = ledger.record(2, 7).unwrap();
    assert_eq!(record.batch_id, 0);
    assert_eq!(record.message_hash, [1u8; 32]);
    assert_eq!(record.payload, vec![1, 2, 3]);
    assert_eq!(ledger.claim(2, 8, 0, [1u8; 32], vec![]), Ok(()));
    assert_eq!(ledger.claim(3, 7, 0, [1u8; 32], vec![]), Ok(()));
    assert!(ledger.is_claimed(2, 7));
    assert!(!ledger.is_claimed(4, 7));
}

#[test]
fn token_ledger_fails_closed() {
    let mut t = TokenLedger::new();
    let a = [1u8; 32];
    let b = [2u8; 32];
    assert_eq!(t.mint(a, 100), Ok(()));
    assert_eq!(t.transfer(a, b, 101), Err(BridgeError::CollaboratorError));
    assert_eq!(t.burn(b, 1), Err(BridgeError::CollaboratorError));
    assert_eq!(t.mint(b, u64::MAX), Err(BridgeError::CollaboratorError));
    assert_eq!(t.transfer(a, b, 40), Ok(()));
    assert_eq!(t.balance_of(&a), 60);
    assert_eq!(t.balance_of(&b), 40);
    assert_eq!(t.burn(b, 40), Ok(()));
    assert_eq!(t.balance_of(&b), 0);
    assert_eq!(t.total_supply(), 60);
    assert_eq!(t.transfer(a, a, 60), Ok(()));
    assert_eq!(t.balance_of(&a), 60);
}

#[test]
fn back_to_back_posts_reserve_distinct_sequences() {
    let mut o = Outbox::new(0);
    let s1 = o.post(0, 0, vec![1]).unwrap();
    let s2 = o.post(0, 0, vec![2]).unwrap();
    assert_ne!(s1, s2);
    assert_eq!((s1, s2), (0, 1));
    assert_eq!(o.next_sequence(), 2);
    let seqs: Vec<u64> = o.messages().iter().map(|m| m.sequence).collect();
    assert_eq!(seqs, vec![0, 1]);
}
