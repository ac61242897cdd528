//! Core of a cross-chain fungible-token bridge: the wire payload codec, the
//! decimal normalizer, the foreign-emitter registry, the replay ledger and the
//! transfer engine that moves value between the home ledger and foreign chains.
pub mod address;
pub mod bridge;
pub mod error;
pub mod ledger;
pub mod messaging;
pub mod normalize;
pub mod payload;
pub mod registry;
pub mod replay;
pub mod slot_map;
pub mod wide;
