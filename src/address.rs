//! Derivation of a wallet's associated token account on the home ledger.
use vstd::prelude::*;

use anchor_spl::associated_token::get_associated_token_address;

verus! {

/// The address of the associated token account of `wallet` for `mint`: a
/// program-derived address that depends on the two keys alone.
pub uninterp spec fn associated_account_of(wallet: [u8; 32], mint: [u8; 32]) -> [u8; 32];

/// Relies on anchor_spl::associated_token::get_associated_token_address
/// (spl-associated-token-account), which derives the address from the two
/// keys and the token program id. It panics only where no bump seed yields
/// an off-curve address, which happens with negligible probability.
#[verifier::external_body]
pub(crate) fn associated_token_address(wallet: &[u8; 32], mint: &[u8; 32]) -> (r: [u8; 32])
    ensures
        r == associated_account_of(*wallet, *mint),
{
    get_associated_token_address(&(*wallet).into(), &(*mint).into()).to_bytes()
}

} // verus!
