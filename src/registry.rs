//! The allow-list of trusted counter-party contracts, one per foreign chain.
use vstd::prelude::*;

use crate::error::BridgeError;
use crate::slot_map::{SlotKey, SlotMap};

verus! {

/// Whether an address is 32 zero bytes.
pub open spec fn is_zero_address(a: [u8; 32]) -> bool {
    forall|i: int| 0 <= i < 32 ==> a@[i] == 0
}

/// Whether `(chain, address)` may be registered on a ledger whose own chain
/// id is `home`.
pub open spec fn valid_emitter(home: u64, chain: u64, address: [u8; 32]) -> bool {
    chain > 0 && chain != home && !is_zero_address(address)
}

/// Whether the registry `m` trusts `address` as the emitter of `chain`.
pub open spec fn trusts(m: Map<u64, [u8; 32]>, chain: u64, address: [u8; 32]) -> bool {
    m.contains_key(chain) && m[chain] == address
}

/// The registry after `register(chain, address)`: upserted when valid,
/// unchanged otherwise.
pub open spec fn registered(m: Map<u64, [u8; 32]>, home: u64, chain: u64, address: [u8; 32]) -> Map<
    u64,
    [u8; 32],
> {
    if valid_emitter(home, chain, address) {
        m.insert(chain, address)
    } else {
        m
    }
}

pub fn is_zero(a: &[u8; 32]) -> (r: bool)
    ensures
        r == is_zero_address(*a),
{
    let mut i: usize = 0;
    while i < 32
        invariant
            0 <= i <= 32,
            a@.len() == 32,
            forall|j: int| 0 <= j < i ==> a@[j] == 0,
        decreases 32 - i,
    {
        if a[i] != 0 {
            return false;
        }
        i = i + 1;
    }
    true
}

/// Registered foreign emitters, keyed by chain id.
pub struct EmitterRegistry {
    home_chain_id: u64,
    emitters: SlotMap<u64, [u8; 32]>,
}

impl EmitterRegistry {
    pub closed spec fn view(&self) -> Map<u64, [u8; 32]> {
        self.emitters@
    }

    pub closed spec fn home(&self) -> u64 {
        self.home_chain_id
    }

    /// Every record is a valid emitter.
    pub closed spec fn wf(&self) -> bool {
        &&& self.emitters.wf()
        &&& forall|c: u64| #[trigger]
            self.emitters@.contains_key(c) ==> valid_emitter(
                self.home_chain_id,
                c,
                self.emitters@[c],
            )
    }

    pub fn new(home_chain_id: u64) -> (r: EmitterRegistry)
        ensures
            r.wf(),
            r@ == Map::<u64, [u8; 32]>::empty(),
            r.home() == home_chain_id,
    {
        EmitterRegistry { home_chain_id, emitters: SlotMap::new() }
    }

    pub fn home_chain_id(&self) -> (r: u64)
        ensures
            r == self.home(),
    {
        self.home_chain_id
    }

    /// Upserts the trusted emitter of `chain`. Fails with `ValidationError`,
    /// changing nothing, when the chain id is zero or the home chain's, or the
    /// address is all zero.
    pub fn register(&mut self, chain: u64, address: [u8; 32]) -> (r: Result<(), BridgeError>)
        requires
            old(self).wf(),
        ensures
            final(self).wf(),
            final(self).home() == old(self).home(),
            r.is_ok() <==> valid_emitter(old(self).home(), chain, address),
            r matches Err(e) ==> e == BridgeError::ValidationError,
            final(self)@ == registered(old(self)@, old(self).home(), chain, address),
    {
        if chain == 0 || chain == self.home_chain_id || is_zero(&address) {
            return Err(BridgeError::ValidationError);
        }
        self.emitters.insert(chain, address);
        Ok(())
    }

    /// Whether a record exists for `chain` and holds exactly `address`.
    pub fn verify(&self, chain: u64, address: &[u8; 32]) -> (r: bool)
        requires
            self.wf(),
        ensures
            r == trusts(self@, chain, *address),
    {
        match self.emitters.get(&chain) {
            Some(a) => a.same_key(address),
            None => false,
        }
    }

    /// Whether some emitter is registered for `chain`.
    pub fn is_registered(&self, chain: u64) -> (r: bool)
        requires
            self.wf(),
        ensures
            r == self@.contains_key(chain),
    {
        self.emitters.contains_key(&chain)
    }

    /// The emitter registered for `chain`, if any.
    pub fn emitter(&self, chain: u64) -> (r: Option<[u8; 32]>)
        requires
            self.wf(),
        ensures
            r.is_some() <==> self@.contains_key(chain),
            r matches Some(a) ==> a == self@[chain],
    {
        match self.emitters.get(&chain) {
            Some(a) => Some(*a),
            None => None,
        }
    }
}

/// After a valid registration the registry trusts exactly the registered
/// address for that chain, and no other.
pub proof fn lemma_register_then_verify(
    m: Map<u64, [u8; 32]>,
    home: u64,
    chain: u64,
    address: [u8; 32],
    other: [u8; 32],
)
    requires
        valid_emitter(home, chain, address),
    ensures
        trusts(registered(m, home, chain, address), chain, address),
        other != address ==> !trusts(registered(m, home, chain, address), chain, other),
{
}

/// Registering the same pair a second time changes nothing.
pub proof fn lemma_register_idempotent(
    m: Map<u64, [u8; 32]>,
    home: u64,
    chain: u64,
    address: [u8; 32],
)
    ensures
        registered(registered(m, home, chain, address), home, chain, address) == registered(
            m,
            home,
            chain,
            address,
        ),
{
    if valid_emitter(home, chain, address) {
        assert(m.insert(chain, address).insert(chain, address) =~= m.insert(chain, address));
    }
}

} // verus!
