//! Texture staging layout: the device-aligned row pitch and the packing of
//! decoded pixels into a staging buffer, one aligned row at a time.

use vstd::prelude::*;
use vstd::arithmetic::div_mod::{
    lemma_fundamental_div_mod, lemma_fundamental_div_mod_converse_div,
    lemma_fundamental_div_mod_converse_mod, lemma_mod_division_less_than_divisor,
    lemma_mod_multiples_basic,
};
use vstd::arithmetic::mul::{lemma_mul_inequality, lemma_mul_is_commutative};

verus! {

/// `v` rounded up to the next multiple of `a`.
pub open spec fn round_up(v: nat, a: nat) -> nat
    recommends
        1 <= a,
{
    (((v + a - 1) / (a as int)) * (a as int)) as nat
}

/// Law: rounding up lands on the least multiple of the alignment that is
/// not below the value.
pub proof fn lemma_round_up_properties(v: nat, a: nat)
    requires
        1 <= a,
    ensures
        round_up(v, a) % a == 0,
        v <= round_up(v, a) < v + a,
{
    let d = (v + a - 1) as int;
    let ai = a as int;
    lemma_fundamental_div_mod(d, ai);
    lemma_mod_division_less_than_divisor(d, ai);
    lemma_mul_is_commutative(ai, d / ai);
    lemma_mod_multiples_basic(d / ai, ai);
}

/// The staging-buffer row pitch for a texture of `width` pixels: the row's
/// pixel bytes rounded up to the device's required buffer-copy pitch
/// alignment.
pub fn row_pitch(width: u32, alignment: u64) -> (r: u64)
    requires
        1 <= alignment,
        alignment <= 0x1_0000_0000,
    ensures
        r == round_up(width as nat * 4, alignment as nat),
        r % alignment == 0,
        width as nat * 4 <= r < width as nat * 4 + alignment,
{
    let row_bytes: u64 = (width as u64) * 4;
    let d: u64 = row_bytes + alignment - 1;
    proof {
        lemma_fundamental_div_mod(d as int, alignment as int);
        lemma_mod_division_less_than_divisor(d as int, alignment as int);
        lemma_mul_is_commutative(alignment as int, d as int / alignment as int);
        lemma_round_up_properties(width as nat * 4, alignment as nat);
    }
    (d / alignment) * alignment
}

/// The byte a texture staging buffer holds at offset `i`: within the first
/// `row_bytes` of each `row_pitch`-sized row it mirrors the packed pixel
/// data; the alignment padding after each row is zero.
pub open spec fn staging_byte(pixels: Seq<u8>, row_bytes: int, row_pitch: int, i: int) -> u8
    recommends
        1 <= row_pitch,
{
    if i % row_pitch < row_bytes {
        pixels[(i / row_pitch) * row_bytes + (i % row_pitch)]
    } else {
        0
    }
}

/// Lay decoded pixels out in a texture staging buffer: each of the `height`
/// rows of `width * 4` pixel bytes starts at a multiple of `row_pitch`, and
/// the padding the alignment adds at the end of each row is zero.
pub fn fill_texture_staging(
    pixels: &[u8],
    width: usize,
    height: usize,
    row_pitch: usize,
) -> (r: Vec<u8>)
    requires
        pixels@.len() == width * height * 4,
        width * 4 <= row_pitch,
        1 <= row_pitch,
        height * row_pitch <= usize::MAX,
    ensures
        r@.len() == height * row_pitch,
        forall|y: int, j: int| 0 <= y < height && 0 <= j < width * 4
            ==> #[trigger] r@[y * row_pitch + j] == pixels@[y * (width * 4) + j],
        forall|y: int, j: int| 0 <= y < height && width * 4 <= j < row_pitch
            ==> #[trigger] r@[y * row_pitch + j] == 0,
{
    let row_bytes: usize = width * 4;
    let ghost rbi = row_bytes as int;
    let ghost rpi = row_pitch as int;
    proof {
        assert(width * height * 4 == height * (width * 4)) by (nonlinear_arith);
    }
    let plen: usize = pixels.len();
    let total: usize = height * row_pitch;
    let mut r: Vec<u8> = Vec::new();
    let mut y: usize = 0;
    let mut dst_base: usize = 0;
    let mut src_base: usize = 0;
    while y < height
        invariant
            row_bytes == width * 4,
            rbi == row_bytes,
            rpi == row_pitch,
            row_bytes <= row_pitch,
            total == height * row_pitch,
            pixels@.len() == height * row_bytes,
            plen == pixels@.len(),
            y <= height,
            dst_base == y * row_pitch,
            src_base == y * row_bytes,
            dst_base <= total,
            r@.len() == dst_base,
            forall|i: int| 0 <= i < dst_base ==> r@[i] == staging_byte(pixels@, rbi, rpi, i),
        decreases height - y,
    {
        proof {
            lemma_mul_inequality(y + 1, height as int, row_pitch as int);
            lemma_mul_inequality(y + 1, height as int, row_bytes as int);
            assert((y + 1) * row_pitch == y * row_pitch + row_pitch) by (nonlinear_arith);
            assert((y + 1) * row_bytes == y * row_bytes + row_bytes) by (nonlinear_arith);
        }
        let mut j: usize = 0;
        while j < row_pitch
            invariant
                rbi == row_bytes,
                rpi == row_pitch,
                row_bytes <= row_pitch,
                y < height,
                dst_base == y * row_pitch,
                src_base == y * row_bytes,
                dst_base + row_pitch <= total,
                total <= usize::MAX,
                plen == pixels@.len(),
                src_base + row_bytes <= plen,
                j <= row_pitch,
                r@.len() == dst_base + j,
                forall|i: int| 0 <= i < dst_base + j ==> r@[i] == staging_byte(pixels@, rbi, rpi, i),
            decreases row_pitch - j,
        {
            let b: u8 = if j < row_bytes {
                pixels[src_base + j]
            } else {
                0u8
            };
            r.push(b);
            proof {
                let gi = (dst_base + j) as int;
                assert(gi == (y as int) * rpi + (j as int));
                lemma_fundamental_div_mod_converse_div(gi, rpi, y as int, j as int);
                lemma_fundamental_div_mod_converse_mod(gi, rpi, y as int, j as int);
                assert(staging_byte(pixels@, rbi, rpi, gi) == b);
            }
            j = j + 1;
        }
        y = y + 1;
        dst_base = dst_base + row_pitch;
        src_base = src_base + row_bytes;
    }
    proof {
        assert forall|yy: int, j: int| 0 <= yy < height && 0 <= j < rbi implies
            #[trigger] r@[yy * rpi + j] == pixels@[yy * rbi + j] by {
            lemma_mul_inequality(yy + 1, height as int, rpi);
            assert((yy + 1) * rpi == yy * rpi + rpi) by (nonlinear_arith);
            assert(yy * rpi >= 0) by (nonlinear_arith)
                requires yy >= 0, rpi >= 0;
            lemma_fundamental_div_mod_converse_div(yy * rpi + j, rpi, yy, j);
            lemma_fundamental_div_mod_converse_mod(yy * rpi + j, rpi, yy, j);
        }
        assert forall|yy: int, j: int| 0 <= yy < height && rbi <= j < rpi implies
            #[trigger] r@[yy * rpi + j] == 0 by {
            lemma_mul_inequality(yy + 1, height as int, rpi);
            assert((yy + 1) * rpi == yy * rpi + rpi) by (nonlinear_arith);
            assert(yy * rpi >= 0) by (nonlinear_arith)
                requires yy >= 0, rpi >= 0;
            lemma_fundamental_div_mod_converse_div(yy * rpi + j, rpi, yy, j);
            lemma_fundamental_div_mod_converse_mod(yy * rpi + j, rpi, yy, j);
        }
    }
    r
}

} // verus!
