//! Conversion between a token's native decimal precision and the shared
//! eight-decimal wire precision.
use vstd::prelude::*;

use crate::error::BridgeError;

verus! {

/// Decimal places of every amount on the wire.
pub const WIRE_DECIMALS: u8 = 8;

/// `10^n`.
pub open spec fn pow10(n: nat) -> nat
    decreases n,
{
    if n == 0 {
        1
    } else {
        10 * pow10((n - 1) as nat)
    }
}

/// A native amount `x` of a token with `d` decimals, at wire precision
/// (floor division when `d` exceeds the wire precision).
pub open spec fn normalized(x: nat, d: nat) -> nat {
    if d > 8 {
        x / pow10((d - 8) as nat)
    } else {
        x * pow10((8 - d) as nat)
    }
}

/// A wire amount `x`, at the native precision of a token with `d` decimals
/// (floor division when `d` is below the wire precision).
pub open spec fn denormalized(x: nat, d: nat) -> nat {
    if d > 8 {
        x * pow10((d - 8) as nat)
    } else {
        x / pow10((8 - d) as nat)
    }
}

proof fn lemma_pow10_monotone(i: nat, j: nat)
    requires
        i <= j,
    ensures
        1 <= pow10(i) <= pow10(j),
    decreases j,
{
    if j > i {
        lemma_pow10_monotone(i, (j - 1) as nat);
    } else if i > 0 {
        lemma_pow10_monotone((i - 1) as nat, (j - 1) as nat);
    }
}

proof fn lemma_pow10_small(n: nat)
    requires
        n <= 8,
    ensures
        1 <= pow10(n) <= 100_000_000,
{
    lemma_pow10_monotone(n, 8);
    reveal_with_fuel(pow10, 9);
    assert(pow10(8) == 100_000_000);
}

/// `10^n`, or `None` when it does not fit in 64 bits.
fn pow10_checked(n: u8) -> (r: Option<u64>)
    ensures
        r.is_some() <==> pow10(n as nat) <= u64::MAX,
        r.is_some() ==> r.unwrap() == pow10(n as nat),
{
    let mut acc: u64 = 1;
    let mut i: u8 = 0;
    while i < n
        invariant
            i <= n,
            acc == pow10(i as nat),
        decreases n - i,
    {
        if acc > u64::MAX / 10 {
            proof {
                lemma_pow10_monotone((i + 1) as nat, n as nat);
            }
            return None;
        }
        acc = acc * 10;
        i = i + 1;
    }
    Some(acc)
}

/// Scales a native amount of a token with `decimals` places to wire precision.
/// Fails with `ArithmeticError` exactly when the result does not fit in 64 bits.
pub fn normalize(amount: u64, decimals: u8) -> (r: Result<u64, BridgeError>)
    ensures
        r.is_ok() <==> normalized(amount as nat, decimals as nat) <= u64::MAX,
        r matches Ok(v) ==> v == normalized(amount as nat, decimals as nat),
        r matches Err(e) ==> e == BridgeError::ArithmeticError,
{
    if decimals > WIRE_DECIMALS {
        let k = decimals - WIRE_DECIMALS;
        proof {
            lemma_pow10_monotone(0, k as nat);
        }
        match pow10_checked(k) {
            Some(p) => {
                assert(amount / p <= amount) by (nonlinear_arith)
                    requires p >= 1;
                Ok(amount / p)
            },
            None => {
                let ghost p = pow10(k as nat);
                assert(amount as nat / p == 0) by (nonlinear_arith)
                    requires amount < p;
                Ok(0)
            },
        }
    } else {
        let k = WIRE_DECIMALS - decimals;
        proof {
            lemma_pow10_small(k as nat);
        }
        let p = pow10_checked(k).unwrap();
        match amount.checked_mul(p) {
            Some(v) => Ok(v),
            None => Err(BridgeError::ArithmeticError),
        }
    }
}

/// Scales a wire amount to the native precision of a token with `decimals`
/// places. Fails with `ArithmeticError` exactly when the result does not fit
/// in 64 bits.
pub fn denormalize(amount: u64, decimals: u8) -> (r: Result<u64, BridgeError>)
    ensures
        r.is_ok() <==> denormalized(amount as nat, decimals as nat) <= u64::MAX,
        r matches Ok(v) ==> v == denormalized(amount as nat, decimals as nat),
        r matches Err(e) ==> e == BridgeError::ArithmeticError,
{
    if decimals > WIRE_DECIMALS {
        let k = decimals - WIRE_DECIMALS;
        match pow10_checked(k) {
            Some(p) => match amount.checked_mul(p) {
                Some(v) => Ok(v),
                None => Err(BridgeError::ArithmeticError),
            },
            None => {
                if amount == 0 {
                    assert(0 * pow10(k as nat) == 0);
                    Ok(0)
                } else {
                    let ghost p = pow10(k as nat);
                    assert(amount as nat * p >= p) by (nonlinear_arith)
                        requires amount >= 1;
                    Err(BridgeError::ArithmeticError)
                }
            },
        }
    } else {
        let k = WIRE_DECIMALS - decimals;
        proof {
            lemma_pow10_small(k as nat);
        }
        let p = pow10_checked(k).unwrap();
        assert(amount / p <= amount) by (nonlinear_arith)
            requires p >= 1;
        Ok(amount / p)
    }
}

/// Normalizing and then denormalizing loses nothing when the token has at
/// most eight decimals; with more, it loses only the dust below wire
/// precision: less than `10^(decimals - 8)`, never more than the amount.
/// The way back never overflows.
pub proof fn lemma_normalize_round_trip(x: u64, d: u8)
    requires
        normalized(x as nat, d as nat) <= u64::MAX,
    ensures
        denormalized(normalized(x as nat, d as nat), d as nat) <= x,
        d <= 8 ==> denormalized(normalized(x as nat, d as nat), d as nat) == x,
        d > 8 ==> x - denormalized(normalized(x as nat, d as nat), d as nat) < pow10(
            (d - 8) as nat,
        ),
{
    if d > 8 {
        let p = pow10((d - 8) as nat);
        lemma_pow10_monotone(0, (d - 8) as nat);
        assert((x as nat / p) * p <= x && x - (x as nat / p) * p < p) by (nonlinear_arith)
            requires p >= 1;
    } else {
        let p = pow10((8 - d) as nat);
        lemma_pow10_monotone(0, (8 - d) as nat);
        assert((x as nat * p) / p == x) by (nonlinear_arith)
            requires p >= 1;
    }
}

} // verus!
