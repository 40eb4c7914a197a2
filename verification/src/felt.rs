//! Field elements of the Stark prime field, held as four 64-bit limbs.
//!
//! The engine moves field elements between memory cells, compares them, and
//! feeds them to the hash chain; the only arithmetic it needs is conversion
//! from machine integers and floor division by two.

use vstd::prelude::*;

verus! {

/// The Stark field prime: 2^251 + 17 * 2^192 + 1.
pub open spec fn stark_prime() -> int {
    0x800000000000011000000000000000000000000000000000000000000000001int
}

/// 2^64, the limb radix.
pub open spec fn limb_radix() -> int {
    0x10000000000000000
}

/// A field element, little-endian limbs: `d0` is the least significant.
#[derive(Clone, Copy, PartialEq, Eq, Structural, Debug)]
pub struct Felt {
    pub d0: u64,
    pub d1: u64,
    pub d2: u64,
    pub d3: u64,
}

impl View for Felt {
    type V = int;

    open spec fn view(&self) -> int {
        self.d0 + self.d1 * limb_radix() + self.d2 * limb_radix() * limb_radix()
            + self.d3 * limb_radix() * limb_radix() * limb_radix()
    }
}

impl Felt {
    /// Canonical representative: the denoted integer lies below the prime.
    pub open spec fn wf(self) -> bool {
        self@ < stark_prime()
    }

    pub fn from_u64(x: u64) -> (r: Felt)
        ensures
            r == (Felt { d0: x, d1: 0, d2: 0, d3: 0 }),
            r@ == x,
            r.wf(),
    {
        Felt { d0: x, d1: 0, d2: 0, d3: 0 }
    }

    pub fn from_u128_pair(hi: u64, lo: u64) -> (r: Felt)
        ensures
            r@ == lo + hi * limb_radix(),
            r.wf(),
    {
        Felt { d0: lo, d1: hi, d2: 0, d3: 0 }
    }

    pub fn from_usize(x: usize) -> (r: Felt)
        ensures
            r == (Felt { d0: x as u64, d1: 0, d2: 0, d3: 0 }),
            r@ == x,
            r.wf(),
    {
        Felt { d0: x as u64, d1: 0, d2: 0, d3: 0 }
    }

    pub fn from_bool(b: bool) -> (r: Felt)
        ensures
            r == (Felt { d0: if b { 1u64 } else { 0u64 }, d1: 0, d2: 0, d3: 0 }),
            r@ == (if b { 1int } else { 0int }),
            r.wf(),
    {
        Felt { d0: if b { 1 } else { 0 }, d1: 0, d2: 0, d3: 0 }
    }

    pub fn zero() -> (r: Felt)
        ensures
            r == (Felt { d0: 0u64, d1: 0, d2: 0, d3: 0 }),
            r@ == 0,
            r.wf(),
    {
        Felt { d0: 0, d1: 0, d2: 0, d3: 0 }
    }

    /// The denoted integer, when it fits a `u64`.
    pub fn to_u64(&self) -> (r: Option<u64>)
        ensures
            match r {
                Some(v) => self@ == v,
                None => self@ >= limb_radix(),
            },
    {
        if self.d1 == 0 && self.d2 == 0 && self.d3 == 0 {
            Some(self.d0)
        } else {
            proof {
                lemma_limbs_nonneg(*self);
            }
            None
        }
    }

    /// The limbs of the halved element: each limb half its own value plus
    /// the carried-in low bit of the next limb up.
    pub open spec fn halved(self) -> Felt {
        Felt {
            d0: ((self.d0 >> 1u64) | (self.d1 << 63u64)) as u64,
            d1: ((self.d1 >> 1u64) | (self.d2 << 63u64)) as u64,
            d2: ((self.d2 >> 1u64) | (self.d3 << 63u64)) as u64,
            d3: (self.d3 >> 1u64) as u64,
        }
    }

    /// Floor division by two of the denoted integer.
    pub fn div2(&self) -> (r: Felt)
        ensures
            r == self.halved(),
            r@ == self@ / 2,
            self.wf() ==> r.wf(),
    {
        let r = Felt {
            d0: (self.d0 >> 1) | (self.d1 << 63),
            d1: (self.d1 >> 1) | (self.d2 << 63),
            d2: (self.d2 >> 1) | (self.d3 << 63),
            d3: self.d3 >> 1,
        };
        proof {
            lemma_div2_limbs(*self, r);
        }
        r
    }
}

/// Each limb contributes a non-negative amount, so the denoted integer is
/// at least as large as any single weighted limb.
proof fn lemma_limbs_nonneg(x: Felt)
    ensures
        x@ >= x.d0,
        x.d1 >= 1 ==> x@ >= limb_radix(),
        x.d2 >= 1 || x.d3 >= 1 ==> x@ >= limb_radix(),
{
    assert(x@ >= x.d0 && (x.d1 >= 1 ==> x@ >= limb_radix()) && (x.d2 >= 1 || x.d3 >= 1
        ==> x@ >= limb_radix())) by (nonlinear_arith)
        requires
            0 <= x.d0 < limb_radix(),
            0 <= x.d1 < limb_radix(),
            0 <= x.d2 < limb_radix(),
            0 <= x.d3 < limb_radix(),
            x@ == x.d0 + x.d1 * limb_radix() + x.d2 * limb_radix() * limb_radix()
                + x.d3 * limb_radix() * limb_radix() * limb_radix(),
    {}
}

/// One limb of the halved element: half the limb plus the carried-in low bit
/// of the next limb up.
proof fn lemma_half_limb(lo: u64, hi: u64, r: u64)
    requires
        r == (lo >> 1) | (hi << 63),
    ensures
        r == lo / 2 + (hi % 2) * 0x8000000000000000,
{
    assert(((lo >> 1) | (hi << 63)) == lo / 2 + (hi % 2) * 0x8000000000000000) by (bit_vector);
}

/// The top limb of the halved element has no carry in.
proof fn lemma_half_top_limb(lo: u64, r: u64)
    requires
        r == lo >> 1,
    ensures
        r == lo / 2,
{
    assert((lo >> 1) == lo / 2) by (bit_vector);
}

/// Relates the limb-wise halving to division of the denoted integer.
proof fn lemma_div2_limbs(x: Felt, r: Felt)
    requires
        r.d0 == (x.d0 >> 1) | (x.d1 << 63),
        r.d1 == (x.d1 >> 1) | (x.d2 << 63),
        r.d2 == (x.d2 >> 1) | (x.d3 << 63),
        r.d3 == x.d3 >> 1,
    ensures
        r@ == x@ / 2,
        x@ < stark_prime() ==> r@ < stark_prime(),
{
    lemma_half_limb(x.d0, x.d1, r.d0);
    lemma_half_limb(x.d1, x.d2, r.d1);
    lemma_half_limb(x.d2, x.d3, r.d2);
    lemma_half_top_limb(x.d3, r.d3);
    assert(2 * r@ + x.d0 % 2 == x@) by (nonlinear_arith)
        requires
            r.d0 == x.d0 / 2 + (x.d1 % 2) * 0x8000000000000000,
            r.d1 == x.d1 / 2 + (x.d2 % 2) * 0x8000000000000000,
            r.d2 == x.d2 / 2 + (x.d3 % 2) * 0x8000000000000000,
            r.d3 == x.d3 / 2,
            0 <= x.d0 < limb_radix(),
            0 <= x.d1 < limb_radix(),
            0 <= x.d2 < limb_radix(),
            0 <= x.d3 < limb_radix(),
            r@ == r.d0 + r.d1 * limb_radix() + r.d2 * limb_radix() * limb_radix()
                + r.d3 * limb_radix() * limb_radix() * limb_radix(),
            x@ == x.d0 + x.d1 * limb_radix() + x.d2 * limb_radix() * limb_radix()
                + x.d3 * limb_radix() * limb_radix() * limb_radix(),
    {}
    assert(r@ == x@ / 2);
}

/// Well-formed field elements are equal as structures exactly when they
/// denote the same integer: the limbs are the base-2^64 digits of the value.
pub proof fn lemma_felt_eq_value(a: Felt, b: Felt)
    ensures
        a@ == b@ <==> (a.d0 == b.d0 && a.d1 == b.d1 && a.d2 == b.d2 && a.d3 == b.d3),
{
    if a@ == b@ {
        assert(a.d0 == b.d0 && a.d1 == b.d1 && a.d2 == b.d2 && a.d3 == b.d3) by (nonlinear_arith)
            requires
                0 <= a.d0 < limb_radix(),
                0 <= a.d1 < limb_radix(),
                0 <= a.d2 < limb_radix(),
                0 <= a.d3 < limb_radix(),
                0 <= b.d0 < limb_radix(),
                0 <= b.d1 < limb_radix(),
                0 <= b.d2 < limb_radix(),
                0 <= b.d3 < limb_radix(),
                a.d0 + a.d1 * limb_radix() + a.d2 * limb_radix() * limb_radix()
                    + a.d3 * limb_radix() * limb_radix() * limb_radix()
                    == b.d0 + b.d1 * limb_radix() + b.d2 * limb_radix() * limb_radix()
                    + b.d3 * limb_radix() * limb_radix() * limb_radix(),
        {}
    }
}

} // verus!
