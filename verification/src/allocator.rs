//! Shared definitions of the heap-allocation subsystem: the heap range, the
//! allocation error taxonomy, and the alignment utility with its arithmetic
//! lemmas.

use vstd::prelude::*;
use vstd::arithmetic::div_mod::{
    lemma_fundamental_div_mod, lemma_fundamental_div_mod_converse, lemma_mod_bound,
    lemma_mod_multiples_basic,
};
use vstd::arithmetic::power2::{
    lemma2_to64, lemma2_to64_rest, lemma_pow2_adds, lemma_pow2_pos, lemma_pow2_strictly_increases,
    pow2,
};
use vstd::bits::{lemma_usize_low_bits_mask_is_mod, low_bits_mask};

pub mod bump;
pub mod fixed_size;
pub mod linked_list;

verus! {

/// Start of the virtual address range reserved for the heap. The paging
/// layer maps this range present and writable before the allocator is
/// initialized; the allocator itself never maps memory. The value is an
/// x86-64 virtual address; platform code narrows it to `usize` when it
/// hands the range to an allocator.
pub const HEAP_START: u64 = 0x4444_4444_0000;

/// Size of the heap range in bytes.
pub const HEAP_SIZE: usize = 100 * 1024;

/// Why an allocation request failed. A failure is reported to the caller as
/// a sentinel; the allocator never aborts.
#[derive(Clone, Copy, Debug, PartialEq, Eq, Structural)]
pub enum AllocError {
    /// The strategy (and its fallback, if any) cannot satisfy the request.
    OutOfSpace,
    /// End-address arithmetic would overflow the machine word.
    AddressOverflow,
}

/// A placeholder allocator that refuses every request.
pub struct Dummy;

impl Dummy {
    /// Fails unconditionally; registering it makes every dynamic-memory
    /// operation surface an allocation error.
    pub fn allocate(&self, _size: usize, _align: usize) -> (r: Result<usize, AllocError>)
        ensures
            r is Err,
    {
        Err(AllocError::OutOfSpace)
    }
}

/// An alignment is valid exactly when it is a power of two.
pub open spec fn is_power_of_two(a: usize) -> bool {
    exists|k: nat| a == pow2(k)
}

/// Powers of two are positive.
pub proof fn lemma_power_of_two_pos(a: usize)
    requires
        is_power_of_two(a),
    ensures
        a >= 1,
{
    let k = choose|k: nat| a == pow2(k);
    lemma_pow2_pos(k);
}

/// The named block sizes and header sizes the allocators use are powers of
/// two.
pub proof fn lemma_small_powers_of_two()
    ensures
        forall|k: nat| k <= 12 ==> #[trigger] is_power_of_two(pow2(k) as usize),
        pow2(0) == 1 && pow2(1) == 2 && pow2(2) == 4 && pow2(3) == 8 && pow2(4) == 16,
        pow2(5) == 32 && pow2(6) == 64 && pow2(7) == 128 && pow2(8) == 256,
        pow2(9) == 512 && pow2(10) == 1024 && pow2(11) == 2048 && pow2(12) == 4096,
{
    lemma2_to64();
    assert forall|k: nat| k <= 12 implies #[trigger] is_power_of_two(pow2(k) as usize) by {
        assert(pow2(k) <= pow2(12)) by {
            if k < 12 {
                lemma_pow2_strictly_increases(k, 12);
            }
        }
        assert(pow2(k) as usize == pow2(k));
    }
}

/// A power of two that fits in a machine word has an exponent below the
/// word width.
proof fn lemma_pow2_usize_bound(k: nat)
    requires
        pow2(k) <= usize::MAX,
    ensures
        k < usize::BITS,
{
    if k >= usize::BITS {
        lemma2_to64();
        lemma2_to64_rest();
        if k > usize::BITS {
            lemma_pow2_strictly_increases(usize::BITS as nat, k);
        }
        assert(false);
    }
}

/// The smallest multiple of `align` that is at least `addr`.
pub open spec fn spec_align_up(addr: int, align: int) -> int
    recommends
        align >= 1,
{
    ((addr + align - 1) / align) * align
}

/// Basic consequences of the rounding in `spec_align_up`: the result is a
/// multiple of the alignment, not below the address, and less than one
/// alignment above it.
pub proof fn lemma_align_up_props(addr: int, align: int)
    requires
        align >= 1,
        addr >= 0,
    ensures
        spec_align_up(addr, align) % align == 0,
        addr <= spec_align_up(addr, align) < addr + align,
        addr % align == 0 ==> spec_align_up(addr, align) == addr,
{
    let x = addr + align - 1;
    let q = x / align;
    let m = x % align;
    lemma_fundamental_div_mod(x, align);
    lemma_mod_bound(x, align);
    assert(q * align == x - m) by (nonlinear_arith)
        requires
            x == align * q + m,
    ;
    lemma_mod_multiples_basic(q, align);
    if addr % align == 0 {
        lemma_fundamental_div_mod(addr, align);
        let p = addr / align;
        assert(x == p * align + (align - 1)) by (nonlinear_arith)
            requires
                addr == align * p,
                x == addr + align - 1,
        ;
        lemma_fundamental_div_mod_converse(x, align, p, align - 1);
    }
}

/// Divisibility passes through a chain: if `a` divides `x` and `b` divides
/// `a`, then `b` divides `x`.
pub proof fn lemma_mod_mod_zero(x: int, a: int, b: int)
    requires
        a > 0,
        b > 0,
        x % a == 0,
        a % b == 0,
    ensures
        x % b == 0,
{
    let k = x / a;
    let m = a / b;
    lemma_fundamental_div_mod(x, a);
    assert(x == k * a);
    lemma_fundamental_div_mod(a, b);
    assert(a == m * b);
    assert(x == (k * m) * b) by (nonlinear_arith)
        requires
            x == k * a,
            a == m * b,
    ;
    lemma_mod_multiples_basic(k * m, b);
}

/// A smaller power of two divides a larger one.
pub proof fn lemma_pow2_divides(small: usize, big: usize)
    requires
        is_power_of_two(small),
        is_power_of_two(big),
        small <= big,
    ensures
        big as int % small as int == 0,
{
    let j = choose|j: nat| small == pow2(j);
    let k = choose|k: nat| big == pow2(k);
    lemma_pow2_pos(j);
    lemma_pow2_pos(k);
    if k < j {
        lemma_pow2_strictly_increases(k, j);
    }
    lemma_pow2_adds((k - j) as nat, j);
    lemma_mod_multiples_basic(pow2((k - j) as nat) as int, pow2(j) as int);
}

/// Two address spans, each given as (start, length), do not overlap.
pub open spec fn spans_disjoint(a: (int, int), b: (int, int)) -> bool {
    a.0 + a.1 <= b.0 || b.0 + b.1 <= a.0
}

/// Rounds `addr` up to the next multiple of `align`, reporting rounding
/// past the machine word as `None` instead of wrapping.
pub fn align_up_checked(addr: usize, align: usize) -> (r: Option<usize>)
    requires
        is_power_of_two(align),
    ensures
        match r {
            Some(v) => v == spec_align_up(addr as int, align as int),
            None => spec_align_up(addr as int, align as int) > usize::MAX,
        },
{
    proof {
        lemma_power_of_two_pos(align);
        lemma_align_up_props(addr as int, align as int);
    }
    let rem = addr % align;
    if rem == 0 {
        Some(addr)
    } else {
        let pad = align - rem;
        proof {
            let q = addr as int / align as int;
            lemma_fundamental_div_mod(addr as int, align as int);
            assert((addr + align - 1) as int == (q + 1) * align + (rem - 1)) by (nonlinear_arith)
                requires
                    addr == align * q + rem,
            ;
            lemma_fundamental_div_mod_converse(
                addr + align - 1,
                align as int,
                q + 1,
                rem - 1,
            );
            assert(spec_align_up(addr as int, align as int) == (q + 1) * align);
            assert((q + 1) * align == addr + pad) by (nonlinear_arith)
                requires
                    addr == align * q + rem,
                    pad == align - rem,
            ;
        }
        if pad > usize::MAX - addr {
            None
        } else {
            Some(addr + pad)
        }
    }
}

/// Rounds `addr` up to the next multiple of `align`, which must be a power
/// of two. This is the one piece of address arithmetic every strategy
/// shares.
pub fn align_up(addr: usize, align: usize) -> (r: usize)
    requires
        is_power_of_two(align),
        addr + align - 1 <= usize::MAX,
    ensures
        r == spec_align_up(addr as int, align as int),
{
    proof {
        lemma_power_of_two_pos(align);
    }
    let x = addr + (align - 1);
    let r = x & !(align - 1);
    proof {
        let m: usize = (align - 1) as usize;
        let k = choose|k: nat| align == pow2(k);
        lemma_pow2_usize_bound(k);
        lemma_usize_low_bits_mask_is_mod(x, k);
        assert(low_bits_mask(k) as usize == m);
        assert(x == (x & !m) + (x & m)) by (bit_vector);
        let q = x as int / align as int;
        lemma_fundamental_div_mod(x as int, align as int);
        assert(q * align == x - x as int % align as int) by (nonlinear_arith)
            requires
                x == align * q + x as int % align as int,
        ;
    }
    r
}

} // verus!
