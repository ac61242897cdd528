//! The failures a bridge operation can end in.
use vstd::prelude::*;

verus! {

/// Every failure aborts the whole operation; nothing is committed.
#[derive(Clone, Copy, Debug, PartialEq, Eq, Structural)]
pub enum BridgeError {
    /// A bad chain id, an all-zero address or a destination account mismatch.
    ValidationError,
    /// The message's emitter is not the one registered for its chain.
    TrustError,
    /// The `(chain, sequence)` slot of an inbound message is already claimed.
    ReplayError,
    /// The payload bytes are malformed or of an unexpected variant.
    PayloadError,
    /// An amount overflowed while scaling or narrowing.
    ArithmeticError,
    /// An administrative operation by someone other than the owner.
    AuthorizationError,
    /// The token ledger or the messaging protocol refused the operation.
    CollaboratorError,
}

} // verus!
