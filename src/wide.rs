//! A fixed-width 256-bit unsigned integer, held as 32 little-endian bytes.
use vstd::prelude::*;

verus! {

/// `256^n`.
pub open spec fn pow256(n: nat) -> nat
    decreases n,
{
    if n == 0 {
        1
    } else {
        256 * pow256((n - 1) as nat)
    }
}

/// The number that a little-endian byte string denotes.
pub open spec fn le_value(s: Seq<u8>) -> nat
    decreases s.len(),
{
    if s.len() == 0 {
        0
    } else {
        s[0] as nat + 256 * le_value(s.subrange(1, s.len() as int))
    }
}

/// Appending a byte at the most significant end adds it at weight `256^len`.
pub proof fn lemma_le_value_push(s: Seq<u8>, b: u8)
    ensures
        le_value(s.push(b)) == le_value(s) + pow256(s.len()) * b,
    decreases s.len(),
{
    if s.len() == 0 {
        assert(s.push(b).subrange(1, 1) =~= Seq::<u8>::empty());
        assert(le_value(Seq::<u8>::empty()) == 0);
        assert(s.push(b)[0] == b);
        assert(le_value(s.push(b)) == b);
        assert(le_value(s) == 0);
        assert(pow256(0) == 1);
    } else {
        let t = s.subrange(1, s.len() as int);
        assert(s.push(b).subrange(1, s.len() as int + 1) =~= t.push(b));
        lemma_le_value_push(t, b);
        let a = le_value(t);
        let p = pow256(t.len());
        assert(s.push(b)[0] == s[0]);
        assert(le_value(s.push(b)) == s[0] + 256 * le_value(t.push(b)));
        assert(pow256(s.len()) == 256 * p);
        assert(le_value(s) == s[0] + 256 * a);
        assert(256 * (a + p * b) == 256 * a + (256 * p) * b) by (nonlinear_arith);
    }
}

/// Dropping low-order bytes never makes the value larger.
pub proof fn lemma_le_value_suffix(s: Seq<u8>, j: int, k: int)
    requires
        0 <= j <= k <= s.len(),
    ensures
        le_value(s.subrange(j, s.len() as int)) >= le_value(s.subrange(k, s.len() as int)),
    decreases k - j,
{
    if j < k {
        let n = s.len() as int;
        assert(s.subrange(j, n).subrange(1, n - j) =~= s.subrange(j + 1, n));
        lemma_le_value_suffix(s, j + 1, k);
    }
}

proof fn lemma_pow256_monotone(i: nat, j: nat)
    requires
        i <= j,
    ensures
        1 <= pow256(i) <= pow256(j),
    decreases j,
{
    if j > i {
        lemma_pow256_monotone(i, (j - 1) as nat);
    } else if i > 0 {
        lemma_pow256_monotone((i - 1) as nat, (j - 1) as nat);
    }
}

proof fn lemma_pow256_large()
    ensures
        pow256(32) > u64::MAX,
{
    reveal_with_fuel(pow256, 9);
    assert(pow256(8) == 0x1_0000_0000_0000_0000);
    lemma_pow256_monotone(8, 32);
}

/// An unsigned integer of 256 bits; `bytes[0]` is the least significant byte.
#[derive(Clone, Copy, Debug, PartialEq, Eq)]
pub struct U256 {
    pub bytes: [u8; 32],
}

impl U256 {
    /// The number this value denotes.
    pub open spec fn value(&self) -> nat {
        le_value(self.bytes@)
    }

    pub fn from_le_bytes(bytes: [u8; 32]) -> (r: U256)
        ensures
            r.bytes@ == bytes@,
    {
        U256 { bytes }
    }

    pub fn to_le_bytes(&self) -> (r: [u8; 32])
        ensures
            r@ == self.bytes@,
    {
        self.bytes
    }

    /// Widens a native integer; never fails.
    pub fn from_u64(x: u64) -> (r: U256)
        ensures
            r.value() == x,
    {
        let mut bytes = [0u8; 32];
        let mut rem: u64 = x;
        let mut i: usize = 0;
        assert(bytes@.subrange(0, 0) =~= Seq::<u8>::empty());
        assert(le_value(bytes@.subrange(0, 0)) == 0);
        assert(pow256(0) == 1);
        while i < 32
            invariant
                0 <= i <= 32,
                bytes@.len() == 32,
                x == le_value(bytes@.subrange(0, i as int)) + pow256(i as nat) * rem,
            decreases 32 - i,
        {
            let ghost before = bytes@.subrange(0, i as int);
            let digit = (rem % 256) as u8;
            bytes[i] = digit;
            assert(bytes@.subrange(0, i as int + 1) =~= before.push(digit));
            proof {
                lemma_le_value_push(before, digit);
                let p = pow256(i as nat);
                assert(p * rem == p * (rem % 256) + (256 * p) * (rem / 256)) by (nonlinear_arith)
                    requires rem == 256 * (rem / 256) + rem % 256;
            }
            rem = rem / 256;
            i = i + 1;
        }
        proof {
            lemma_pow256_large();
            assert(bytes@.subrange(0, 32) =~= bytes@);
            let p = pow256(32);
            assert(rem == 0) by (nonlinear_arith)
                requires x >= p * rem, p > x, rem >= 0;
        }
        U256 { bytes }
    }

    /// Narrows to a native integer; `None` exactly when the value does not fit.
    pub fn to_u64(&self) -> (r: Option<u64>)
        ensures
            r.is_some() <==> self.value() <= u64::MAX,
            r.is_some() ==> r.unwrap() == self.value(),
    {
        let mut acc: u64 = 0;
        let mut i: usize = 32;
        assert(self.bytes@.subrange(32, 32) =~= Seq::<u8>::empty());
        while i > 0
            invariant
                0 <= i <= 32,
                self.bytes@.len() == 32,
                acc == le_value(self.bytes@.subrange(i as int, 32)),
            decreases i,
        {
            let b = self.bytes[i - 1];
            let ghost s = self.bytes@.subrange(i - 1, 32);
            assert(s.subrange(1, s.len() as int) =~= self.bytes@.subrange(i as int, 32));
            if acc > 0x00ff_ffff_ffff_ffff {
                proof {
                    lemma_le_value_suffix(self.bytes@, 0, i - 1);
                    assert(self.bytes@.subrange(0, 32) =~= self.bytes@);
                }
                return None;
            }
            acc = acc * 256 + b as u64;
            i = i - 1;
        }
        assert(self.bytes@.subrange(0, 32) =~= self.bytes@);
        Some(acc)
    }
}

} // verus!
