//! The per-frame uniform contents, computed as exact bytes.
//!
//! The shader ABI takes the resolution as two 32-bit floats and the frame
//! counter as one unsigned 32-bit integer, all little-endian. Window
//! dimensions are far below 2^24, so each fits a single-precision float
//! exactly; the bit pattern is computed here in plain integer arithmetic and
//! proved against a direct specification, keeping floating point out of the
//! verified code entirely.

use vstd::prelude::*;
use vstd::arithmetic::power2::*;

verus! {

/// Floor of the base-2 logarithm of a positive number.
pub open spec fn log2_floor(n: nat) -> nat
    decreases n,
{
    if n < 2 {
        0
    } else {
        1 + log2_floor(n / 2)
    }
}

/// The IEEE-754 single-precision bit pattern of the exact integer `n`,
/// for `n` below 2^24: zero encodes as zero; otherwise the exponent field is
/// `log2_floor(n) + 127` and the mantissa field holds the bits of `n` below
/// its leading one, left-aligned.
pub open spec fn f32_bits(n: nat) -> nat {
    if n == 0 {
        0
    } else {
        ((log2_floor(n) + 127) * pow2(23) + (n - pow2(log2_floor(n))) * pow2(
            (23 - log2_floor(n)) as nat,
        )) as nat
    }
}

/// The four little-endian bytes of a 32-bit value.
pub open spec fn u32_le_bytes(x: nat) -> Seq<u8> {
    seq![
        (x % 256) as u8,
        ((x / 256) % 256) as u8,
        ((x / 65536) % 256) as u8,
        ((x / 16777216) % 256) as u8,
    ]
}

/// The eight bytes written to the resolution uniform: width then height,
/// each as a little-endian single-precision float.
pub open spec fn resolution_uniform(width: nat, height: nat) -> Seq<u8> {
    u32_le_bytes(f32_bits(width)) + u32_le_bytes(f32_bits(height))
}

/// The four bytes written to the frame-counter uniform.
pub open spec fn frame_uniform(frame: nat) -> Seq<u8> {
    u32_le_bytes(frame)
}

proof fn lemma_log2_floor_unique(n: nat, e: nat)
    requires
        pow2(e) <= n,
        n < pow2(e + 1),
    ensures
        log2_floor(n) == e,
    decreases e,
{
    if e == 0 {
        lemma2_to64();
    } else {
        lemma_pow2_unfold(e);
        lemma_pow2_unfold(e + 1);
        assert(2 * pow2((e - 1) as nat) <= n);
        assert(n < 2 * pow2(e));
        assert(pow2((e - 1) as nat) <= n / 2);
        assert(n / 2 < pow2(e));
        lemma_log2_floor_unique(n / 2, (e - 1) as nat);
        assert(n >= 2);
    }
}

/// The bit pattern of `n` as a single-precision float, computed without
/// floating-point arithmetic.
pub fn f32_bits_exec(n: u32) -> (r: u32)
    requires
        n < 0x1000000,
    ensures
        r == f32_bits(n as nat),
{
    if n == 0 {
        return 0;
    }
    proof {
        lemma2_to64();
    }
    let mut e: u32 = 0;
    let mut p: u32 = 1;
    while 2 * p <= n
        invariant
            0 < n < 0x1000000,
            1 <= p <= n,
            p == pow2(e as nat),
            e <= 23,
        decreases n - p,
    {
        proof {
            lemma_pow2_unfold(e as nat + 1);
            if e >= 23 {
                lemma2_to64();
                assert(false);
            }
        }
        p = 2 * p;
        e = e + 1;
    }
    proof {
        lemma_pow2_unfold(e as nat + 1);
        lemma_log2_floor_unique(n as nat, e as nat);
    }
    let shift = 23 - e;
    let mut q: u32 = 1;
    let mut k: u32 = 0;
    proof {
        lemma2_to64();
    }
    while k < shift
        invariant
            k <= shift,
            shift <= 23,
            q == pow2(k as nat),
        decreases shift - k,
    {
        proof {
            lemma_pow2_unfold(k as nat + 1);
            lemma_pow2_strictly_increases(k as nat, 23);
            lemma2_to64();
        }
        q = 2 * q;
        k = k + 1;
    }
    proof {
        lemma_pow2_adds(e as nat, (23 - e) as nat);
        lemma2_to64();
        assert(pow2(e as nat) * pow2((23 - e) as nat) == 0x800000);
        assert((n - p) < p);
        assert((n - p) * q <= (p - 1) * q) by (nonlinear_arith)
            requires
                n - p <= p - 1,
                q >= 1,
        ;
        assert((p - 1) * q == p * q - q) by (nonlinear_arith);
        assert(p * q == 0x800000);
    }
    (e + 127) * 0x800000 + (n - p) * q
}

/// The little-endian bytes of a 32-bit value.
pub fn u32_le_bytes_exec(x: u32) -> (r: Vec<u8>)
    ensures
        r@ == u32_le_bytes(x as nat),
{
    let mut out: Vec<u8> = Vec::new();
    out.push((x % 256) as u8);
    out.push(((x / 256) % 256) as u8);
    out.push(((x / 65536) % 256) as u8);
    out.push(((x / 16777216) % 256) as u8);
    proof {
        assert(out@ =~= u32_le_bytes(x as nat));
    }
    out
}

/// The bytes of the resolution uniform for a `width` × `height` surface.
pub fn resolution_uniform_bytes(width: u32, height: u32) -> (r: Vec<u8>)
    requires
        width < 0x1000000,
        height < 0x1000000,
    ensures
        r@ == resolution_uniform(width as nat, height as nat),
{
    let mut out = u32_le_bytes_exec(f32_bits_exec(width));
    let mut tail = u32_le_bytes_exec(f32_bits_exec(height));
    out.append(&mut tail);
    out
}

/// The bytes of the frame-counter uniform.
pub fn frame_uniform_bytes(frame: u32) -> (r: Vec<u8>)
    ensures
        r@ == frame_uniform(frame as nat),
{
    u32_le_bytes_exec(frame)
}

/// The frame counter after one successful frame: one more, wrapping at the
/// width of the counter.
pub open spec fn next_frame_index(frame: nat) -> nat {
    (frame + 1) % 0x100000000
}

/// Advance the frame counter, wrapping at its numeric width.
pub fn advance_frame_index(frame: u32) -> (r: u32)
    ensures
        r == next_frame_index(frame as nat),
{
    if frame == 0xFFFFFFFF_u32 {
        0
    } else {
        frame + 1
    }
}

} // verus!
