//! Mip-chain arithmetic: level counts and per-level dimensions for sampled
//! textures whose chain is generated by successive halving blits.

use vstd::prelude::*;

verus! {

/// floor(log2(n)), taking the value 0 for n <= 1.
pub open spec fn log2_floor(n: nat) -> nat
    decreases n,
{
    if n <= 1 {
        0
    } else {
        1 + log2_floor(n / 2)
    }
}

/// The number of levels in a full mip chain for a `w x h` image:
/// `floor(log2(max(w, h))) + 1`.
pub open spec fn mip_level_count(w: nat, h: nat) -> nat {
    log2_floor(if w >= h { w } else { h }) + 1
}

/// The extent of the next (halved) mip level along one axis, never below 1.
pub open spec fn halved(d: nat) -> nat {
    if d > 1 { d / 2 } else { 1 }
}

pub proof fn lemma_log2_floor_le(n: nat, m: nat)
    requires
        n <= m,
    ensures
        log2_floor(n) <= log2_floor(m),
    decreases m,
{
    if n > 1 {
        lemma_log2_floor_le(n / 2, m / 2);
    }
}

/// Any value below 2^k has a floored base-2 logarithm below k.
pub proof fn lemma_log2_floor_lt(n: nat, k: nat)
    requires
        1 <= k,
        n < vstd::arithmetic::power2::pow2(k),
    ensures
        log2_floor(n) < k,
    decreases k,
{
    if n > 1 {
        assert(vstd::arithmetic::power2::pow2(k) == 2 * vstd::arithmetic::power2::pow2((k - 1) as nat)) by {
            vstd::arithmetic::power2::lemma_pow2_unfold(k);
        }
        assert(vstd::arithmetic::power2::pow2(1) == 2) by {
            vstd::arithmetic::power2::lemma2_to64();
        }
        lemma_log2_floor_lt(n / 2, (k - 1) as nat);
    }
}

/// How many mip levels a `width x height` image supports when each level
/// halves both axes (flooring, never below 1) until a 1 x 1 level is reached.
pub fn mip_levels(width: u32, height: u32) -> (levels: u8)
    requires
        1 <= width,
        1 <= height,
    ensures
        levels == mip_level_count(width as nat, height as nat),
{
    let mut n: u32 = if width >= height { width } else { height };
    let ghost n0 = n as nat;
    let mut levels: u8 = 1;
    proof {
        vstd::arithmetic::power2::lemma2_to64();
        lemma_log2_floor_lt(n0, 32);
    }
    while n > 1
        invariant
            1 <= n,
            1 <= levels,
            (levels - 1) + log2_floor(n as nat) == log2_floor(n0),
            log2_floor(n0) <= 31,
        decreases n,
    {
        n = n / 2;
        levels = levels + 1;
    }
    levels
}

/// The extent of the mip level below one of extent `d`.
pub fn next_mip_dim(d: u32) -> (r: u32)
    requires
        1 <= d,
    ensures
        r == halved(d as nat),
        1 <= r,
{
    if d > 1 {
        d / 2
    } else {
        1
    }
}

} // verus!
