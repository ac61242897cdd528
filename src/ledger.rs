//! The token ledger the bridge debits and credits: balances by account and
//! the total supply. Every operation is atomic and fails closed.
use vstd::prelude::*;

use crate::error::BridgeError;
use crate::slot_map::{SlotKey, SlotMap};

verus! {

/// The balance of `a` in `m`; an account never written holds nothing.
pub open spec fn balance(m: Map<[u8; 32], u64>, a: [u8; 32]) -> u64 {
    if m.contains_key(a) {
        m[a]
    } else {
        0
    }
}

pub open spec fn can_mint(m: Map<[u8; 32], u64>, supply: u64, a: [u8; 32], amount: u64) -> bool {
    supply + amount <= u64::MAX && balance(m, a) + amount <= u64::MAX
}

pub open spec fn minted(m: Map<[u8; 32], u64>, a: [u8; 32], amount: u64) -> Map<[u8; 32], u64> {
    m.insert(a, (balance(m, a) + amount) as u64)
}

pub open spec fn can_burn(m: Map<[u8; 32], u64>, supply: u64, a: [u8; 32], amount: u64) -> bool {
    balance(m, a) >= amount && supply >= amount
}

pub open spec fn burned(m: Map<[u8; 32], u64>, a: [u8; 32], amount: u64) -> Map<[u8; 32], u64> {
    m.insert(a, (balance(m, a) - amount) as u64)
}

pub open spec fn can_transfer(
    m: Map<[u8; 32], u64>,
    from: [u8; 32],
    to: [u8; 32],
    amount: u64,
) -> bool {
    balance(m, from) >= amount && (from == to || balance(m, to) + amount <= u64::MAX)
}

pub open spec fn transferred(
    m: Map<[u8; 32], u64>,
    from: [u8; 32],
    to: [u8; 32],
    amount: u64,
) -> Map<[u8; 32], u64> {
    if from == to {
        m
    } else {
        m.insert(from, (balance(m, from) - amount) as u64).insert(
            to,
            (balance(m, to) + amount) as u64,
        )
    }
}

/// Balances by account address, and the total supply.
pub struct TokenLedger {
    balances: SlotMap<[u8; 32], u64>,
    supply: u64,
}

impl TokenLedger {
    pub closed spec fn view(&self) -> Map<[u8; 32], u64> {
        self.balances@
    }

    pub closed spec fn total(&self) -> u64 {
        self.supply
    }

    pub closed spec fn wf(&self) -> bool {
        self.balances.wf()
    }

    pub fn new() -> (r: TokenLedger)
        ensures
            r.wf(),
            r@ == Map::<[u8; 32], u64>::empty(),
            r.total() == 0,
    {
        TokenLedger { balances: SlotMap::new(), supply: 0 }
    }

    /// An independent copy, for work that may have to be rolled back.
    pub fn copy(&self) -> (r: TokenLedger)
        requires
            self.wf(),
        ensures
            r.wf(),
            r@ == self@,
            r.total() == self.total(),
    {
        TokenLedger { balances: self.balances.copy(), supply: self.supply }
    }

    pub fn balance_of(&self, a: &[u8; 32]) -> (r: u64)
        requires
            self.wf(),
        ensures
            r == balance(self@, *a),
    {
        match self.balances.get(a) {
            Some(b) => *b,
            None => 0,
        }
    }

    pub fn total_supply(&self) -> (r: u64)
        ensures
            r == self.total(),
    {
        self.supply
    }

    /// Creates `amount` new tokens in `a`. Fails with `CollaboratorError`,
    /// changing nothing, when the supply or the balance would overflow.
    pub fn mint(&mut self, a: [u8; 32], amount: u64) -> (r: Result<(), BridgeError>)
        requires
            old(self).wf(),
        ensures
            final(self).wf(),
            r.is_ok() <==> can_mint(old(self)@, old(self).total(), a, amount),
            r matches Err(e) ==> e == BridgeError::CollaboratorError,
            r.is_ok() ==> final(self)@ == minted(old(self)@, a, amount) && final(self).total()
                == old(self).total() + amount,
            r.is_err() ==> final(self)@ == old(self)@ && final(self).total() == old(self).total(),
    {
        let b = self.balance_of(&a);
        if amount > u64::MAX - self.supply || amount > u64::MAX - b {
            return Err(BridgeError::CollaboratorError);
        }
        self.balances.insert(a, b + amount);
        self.supply = self.supply + amount;
        Ok(())
    }

    /// Destroys `amount` tokens held by `a`. Fails with `CollaboratorError`,
    /// changing nothing, when `a` holds fewer.
    pub fn burn(&mut self, a: [u8; 32], amount: u64) -> (r: Result<(), BridgeError>)
        requires
            old(self).wf(),
        ensures
            final(self).wf(),
            r.is_ok() <==> can_burn(old(self)@, old(self).total(), a, amount),
            r matches Err(e) ==> e == BridgeError::CollaboratorError,
            r.is_ok() ==> final(self)@ == burned(old(self)@, a, amount) && final(self).total()
                == old(self).total() - amount,
            r.is_err() ==> final(self)@ == old(self)@ && final(self).total() == old(self).total(),
    {
        let b = self.balance_of(&a);
        if amount > b || amount > self.supply {
            return Err(BridgeError::CollaboratorError);
        }
        self.balances.insert(a, b - amount);
        self.supply = self.supply - amount;
        Ok(())
    }

    /// Moves `amount` tokens from `from` to `to`. Fails with
    /// `CollaboratorError`, changing nothing, when `from` holds fewer or the
    /// receiving balance would overflow.
    pub fn transfer(&mut self, from: [u8; 32], to: [u8; 32], amount: u64) -> (r: Result<
        (),
        BridgeError,
    >)
        requires
            old(self).wf(),
        ensures
            final(self).wf(),
            final(self).total() == old(self).total(),
            r.is_ok() <==> can_transfer(old(self)@, from, to, amount),
            r matches Err(e) ==> e == BridgeError::CollaboratorError,
            r.is_ok() ==> final(self)@ == transferred(old(self)@, from, to, amount),
            r.is_err() ==> final(self)@ == old(self)@,
    {
        let bf = self.balance_of(&from);
        if amount > bf {
            return Err(BridgeError::CollaboratorError);
        }
        if from.same_key(&to) {
            return Ok(());
        }
        let bt = self.balance_of(&to);
        if amount > u64::MAX - bt {
            return Err(BridgeError::CollaboratorError);
        }
        self.balances.insert(from, bf - amount);
        self.balances.insert(to, bt + amount);
        Ok(())
    }
}

} // verus!
