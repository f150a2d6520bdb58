//! Arithmetic helpers for page-aligned memory sizing and immediate-width
//! selection. The platform page size itself comes from the caller: querying
//! the operating system is left to the unverified shell around this library.

use vstd::prelude::*;

verus! {

use vstd::arithmetic::div_mod::{lemma_fundamental_div_mod, lemma_mod_multiples_basic};
use vstd::arithmetic::power2::{pow2, lemma_pow2_adds, lemma_pow2_pos, lemma2_to64};
use vstd::bits::lemma_u64_shr_is_div;

/// Access mode of a committed memory region.
pub enum Access {
    NoAccess,
    Read,
    ReadWrite,
    ReadExecutable,
    ReadWriteExecutable,
}

impl Access {
    pub fn is_none(&self) -> (r: bool)
        ensures
            r <==> self is NoAccess,
    {
        matches!(self, Access::NoAccess)
    }
}

/// Width of a native code pointer in bytes; this back end targets x86-64.
pub fn ptr_width() -> (r: i32)
    ensures
        r == 8,
{
    8
}

/// Width of a native code pointer in bytes, as a `usize`.
pub fn ptr_width_usize() -> (r: usize)
    ensures
        r == 8,
{
    8
}

/// The least multiple of `align` that is at least `value`.
pub open spec fn round_up(value: int, align: int) -> int
    recommends
        align >= 1,
{
    ((value + align - 1) / align) * align
}

/// Rounds `value` up to the nearest multiple of `alignment`;
/// an alignment of zero leaves the value unchanged.
pub fn align_usize(value: usize, alignment: usize) -> (r: usize)
    requires
        alignment >= 1 ==> value + alignment - 1 <= usize::MAX,
    ensures
        alignment == 0 ==> r == value,
        alignment >= 1 ==> r == round_up(value as int, alignment as int),
        alignment >= 1 ==> r % alignment == 0 && value <= r && r < value + alignment,
{
    if alignment == 0 {
        return value;
    }
    let q = (value + (alignment - 1)) / alignment;
    proof {
        let x = value + alignment - 1;
        let d = alignment as int;
        lemma_fundamental_div_mod(x, d);
        lemma_mod_multiples_basic(q as int, d);
        assert(q == x / d);
        assert(d * (x / d) == x - x % d);
        assert(q * d == d * q) by (nonlinear_arith);
        assert(q * d == x - x % d);
        assert(0 <= x % d < d);
        assert(value <= q * d <= x);
    }
    q * alignment
}

/// Rounds `value` up to the nearest multiple of `alignment` (32-bit
/// unsigned); an alignment of zero leaves the value unchanged.
pub fn align(value: u32, alignment: u32) -> (r: u32)
    requires
        alignment >= 1 ==> value + alignment - 1 <= u32::MAX,
    ensures
        alignment == 0 ==> r == value,
        alignment >= 1 ==> r == round_up(value as int, alignment as int),
        alignment >= 1 ==> r % alignment == 0 && value <= r && r < value + alignment,
{
    if alignment == 0 {
        return value;
    }
    let q = (value + (alignment - 1)) / alignment;
    proof {
        let x = value + alignment - 1;
        let d = alignment as int;
        lemma_fundamental_div_mod(x, d);
        lemma_mod_multiples_basic(q as int, d);
        assert(q == x / d);
        assert(d * (x / d) == x - x % d);
        assert(q * d == d * q) by (nonlinear_arith);
        assert(q * d == x - x % d);
        assert(0 <= x % d < d);
        assert(value <= q * d <= x);
    }
    q * alignment
}

/// Rounds `value` up to the nearest multiple of `alignment` (signed, both
/// non-negative); an alignment of zero leaves the value unchanged.
pub fn align_i32(value: i32, alignment: i32) -> (r: i32)
    requires
        value >= 0,
        alignment >= 0,
        alignment >= 1 ==> value + alignment - 1 <= i32::MAX,
    ensures
        alignment == 0 ==> r == value,
        alignment >= 1 ==> r == round_up(value as int, alignment as int),
        alignment >= 1 ==> r % alignment == 0 && value <= r && r < value + alignment,
{
    if alignment == 0 {
        return value;
    }
    let q = (value + (alignment - 1)) / alignment;
    proof {
        let x = value + alignment - 1;
        let d = alignment as int;
        lemma_fundamental_div_mod(x, d);
        lemma_mod_multiples_basic(q as int, d);
        assert(q == x / d);
        assert(d * (x / d) == x - x % d);
        assert(q * d == d * q) by (nonlinear_arith);
        assert(q * d == x - x % d);
        assert(0 <= x % d < d);
        assert(value <= q * d <= x);
    }
    q * alignment
}

/// Returns true if `value` is already a multiple of `alignment`;
/// every value counts as aligned to zero.
pub fn is_aligned(value: usize, alignment: usize) -> (r: bool)
    ensures
        r <==> (alignment == 0 || value % alignment == 0),
{
    if alignment == 0 {
        true
    } else {
        value % alignment == 0
    }
}

/// Returns true if `value` is a multiple of the given page size.
pub fn is_page_aligned(value: usize, page_size: usize) -> (r: bool)
    requires
        page_size >= 1,
    ensures
        r <==> value % page_size == 0,
{
    value % page_size == 0
}

/// Rounds `value` up to the nearest multiple of the given page size.
pub fn page_align(value: usize, page_size: usize) -> (r: usize)
    requires
        page_size >= 1,
        value + page_size - 1 <= usize::MAX,
    ensures
        r == round_up(value as int, page_size as int),
        r % page_size == 0,
        value <= r && r < value + page_size,
{
    align_usize(value, page_size)
}

/// Floor of the base-two logarithm, for 32-bit-sized values.
pub fn log2(val: usize) -> (r: usize)
    requires
        1 <= val <= u32::MAX,
    ensures
        r <= 31,
        pow2(r as nat) <= val,
        val < pow2(r as nat + 1),
{
    let mut v: u64 = val as u64;
    let mut log: u64 = 0;
    let ghost orig: u64 = v;
    assert(orig >> 0u64 == orig) by (bit_vector);

    if (v & 0xFFFF0000) != 0 {
        assert(1 <= (v >> 16u64) && (v >> 16u64) <= 0xFFFF) by (bit_vector)
            requires
                v & 0xFFFF0000 != 0 && v <= 0xFFFFFFFF,
        ;
        v >>= 16;
        log += 16;
    } else {
        assert(v <= 0xFFFF) by (bit_vector)
            requires
                v & 0xFFFF0000 == 0 && v <= 0xFFFFFFFF,
        ;
    }
    assert(orig >> log == v && 1 <= v <= 0xFFFF && (log == 0 || log == 16));

    if v >= 256 {
        assert((orig >> log) >> 8u64 == orig >> (log + 8)) by (bit_vector)
            requires
                log <= 16,
        ;
        assert(1 <= (v >> 8u64) && (v >> 8u64) <= 0xFF) by (bit_vector)
            requires
                256 <= v <= 0xFFFF,
        ;
        v >>= 8;
        log += 8;
    }
    assert(orig >> log == v && 1 <= v <= 0xFF && log <= 24);

    if v >= 16 {
        assert((orig >> log) >> 4u64 == orig >> (log + 4)) by (bit_vector)
            requires
                log <= 24,
        ;
        assert(1 <= (v >> 4u64) && (v >> 4u64) <= 0xF) by (bit_vector)
            requires
                16 <= v <= 0xFF,
        ;
        v >>= 4;
        log += 4;
    }
    assert(orig >> log == v && 1 <= v <= 0xF && log <= 28);

    if v >= 4 {
        assert((orig >> log) >> 2u64 == orig >> (log + 2)) by (bit_vector)
            requires
                log <= 28,
        ;
        assert(1 <= (v >> 2u64) && (v >> 2u64) <= 3) by (bit_vector)
            requires
                4 <= v <= 0xF,
        ;
        v >>= 2;
        log += 2;
    }
    assert(orig >> log == v && 1 <= v <= 3 && log <= 30);

    proof {
        if v == 1 {
            assert(v >> 1u64 == 0) by (bit_vector)
                requires
                    v == 1,
            ;
        } else {
            assert(v >> 1u64 == 1) by (bit_vector)
                requires
                    2 <= v <= 3,
            ;
            assert((orig >> log) >> 1u64 == orig >> (log + 1)) by (bit_vector)
                requires
                    log <= 30,
            ;
        }
    }
    let r: u64 = log + (v >> 1);
    proof {
        assert(orig >> r == 1);
        lemma_u64_shr_is_div(orig, r);
        lemma_pow2_pos(r as nat);
        lemma_fundamental_div_mod(orig as int, pow2(r as nat) as int);
        lemma_pow2_adds(r as nat, 1);
        lemma2_to64();
        assert(pow2(r as nat) <= orig && orig < pow2(r as nat + 1));
    }
    r as usize
}

/// Returns true if the value fits an unsigned 8-bit immediate field.
pub fn fits_u8(value: i64) -> (r: bool)
    ensures
        r <==> (0 <= value <= 255),
{
    0 <= value && value <= 255
}

/// Returns true if the value fits a signed 32-bit immediate field.
pub fn fits_i32(value: i64) -> (r: bool)
    ensures
        r <==> (i32::MIN <= value <= i32::MAX),
{
    i32::MIN as i64 <= value && value <= i32::MAX as i64
}

} // verus!
