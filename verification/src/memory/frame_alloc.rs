use vstd::prelude::*;
use vstd::arithmetic::power2::pow2;
use vstd::arithmetic::power2::{lemma_pow2_pos, lemma_pow2_adds, lemma2_to64, lemma2_to64_rest};
use vstd::arithmetic::div_mod::{lemma_fundamental_div_mod, lemma_fundamental_div_mod_converse, lemma_mod_multiples_basic};
use vstd::arithmetic::mul::{lemma_mul_is_commutative, lemma_mul_inequality, lemma_mul_is_distributive_sub};
use vstd::bits::{low_bits_mask, lemma_usize_low_bits_mask_is_mod, lemma_usize_shl_is_mul, lemma_usize_pow2_no_overflow};
use super::types::MemoryAddress;
use vstd::std_specs::convert::IntoSpecImpl;

verus! {

/// On words: with `m` the mask of the low `k` bits, `(a + m) & !m` has no low bit set and
/// lies in `[a, a + m]`.
proof fn lemma_round_up_word(a: usize, k: usize, m: usize)
    requires
        k < usize::BITS,
        m == ((1usize << k) - 1usize) as usize,
        a + m <= usize::MAX,
    ensures
        ((a + m) as usize & !m) & m == 0,
        a <= ((a + m) as usize & !m),
        ((a + m) as usize & !m) - a <= m,
{
    assert(((a + m) as usize & !m) & m == 0) by (bit_vector);
    assert(a <= ((a + m) as usize & !m) && ((a + m) as usize & !m) - a <= m) by (bit_vector)
        requires
            k < usize::BITS,
            m == ((1usize << k) - 1usize) as usize,
            a <= (a + m) as usize,
    ;
}

/// `align(addr, order)` is the smallest address at or above `addr` that is a multiple of
/// `2^order`: the unique multiple of `2^order` in `[addr, addr + 2^order)`.
pub open spec fn align_up(addr: int, order: nat) -> int {
    addr + (pow2(order) - 1) - (addr + (pow2(order) - 1)) % (pow2(order) as int)
}

/// `align_up(addr, order)` is a multiple of `2^order` in `[addr, addr + 2^order)`.
pub proof fn lemma_align_up_window(addr: int, order: nat)
    ensures
        align_up(addr, order) % (pow2(order) as int) == 0,
        addr <= align_up(addr, order) < addr + pow2(order),
{
    let m = pow2(order) as int;
    lemma_pow2_pos(order);
    let s = addr + (m - 1);
    lemma_fundamental_div_mod(s, m);
    lemma_mod_multiples_basic(s / m, m);
    lemma_mul_is_commutative(s / m, m);
}

/// A multiple of `2^order` in `[addr, addr + 2^order)` is `align_up(addr, order)`: there is
/// no other.
pub proof fn lemma_align_up_unique(addr: int, order: nat, r: int)
    requires
        r % (pow2(order) as int) == 0,
        addr <= r < addr + pow2(order),
    ensures
        r == align_up(addr, order),
{
    let m = pow2(order) as int;
    lemma_pow2_pos(order);
    let s = addr + (m - 1);
    lemma_fundamental_div_mod(r, m);
    lemma_mul_is_commutative(m, r / m);
    lemma_fundamental_div_mod_converse(s, m, r / m, s - r);
}

/// An address that is already a multiple of `2^order` is left where it is.
pub proof fn lemma_align_up_of_aligned(addr: int, order: nat)
    requires
        addr % (pow2(order) as int) == 0,
    ensures
        align_up(addr, order) == addr,
{
    lemma_pow2_pos(order);
    lemma_align_up_unique(addr, order, addr);
}

/// Aligning twice gives what aligning once gives.
pub proof fn lemma_align_up_idempotent(addr: int, order: nat)
    ensures
        align_up(align_up(addr, order), order) == align_up(addr, order),
{
    lemma_align_up_window(addr, order);
    lemma_align_up_of_aligned(align_up(addr, order), order);
}

/// A multiple of `2^order` that fits in a word leaves room for `2^order - 1` above it.
proof fn lemma_multiple_fits_word(r: int, order: nat)
    requires
        order < usize::BITS,
        0 <= r <= usize::MAX,
        r % (pow2(order) as int) == 0,
    ensures
        r + (pow2(order) - 1) <= usize::MAX,
{
    let m = pow2(order) as int;
    lemma_pow2_pos(order);
    lemma2_to64();
    lemma2_to64_rest();
    let top = pow2(usize::BITS as nat) as int;
    assert(top == usize::MAX + 1) by {
        assert(usize::BITS == 32 || usize::BITS == 64);
    }
    lemma_pow2_adds(order, (usize::BITS - order) as nat);
    let n = pow2((usize::BITS - order) as nat) as int;
    assert(top == m * n);
    lemma_fundamental_div_mod(r, m);
    let q = r / m;
    assert(r == m * q);
    assert(q < n) by {
        if q >= n {
            lemma_mul_inequality(n, q, m);
            lemma_mul_is_commutative(n, m);
            lemma_mul_is_commutative(q, m);
        }
    }
    assert(m * q <= m * (n - 1)) by {
        lemma_mul_inequality(q, n - 1, m);
        lemma_mul_is_commutative(q, m);
        lemma_mul_is_commutative(n - 1, m);
    }
    lemma_mul_is_distributive_sub(m, n, 1);
}

/// Where `align` may be called on `addr`, it may be called again on its result, and that
/// second call returns the same address.
pub proof fn lemma_align_twice(addr: usize, order: nat)
    requires
        order < usize::BITS,
        addr + (pow2(order) - 1) <= usize::MAX,
    ensures
        align_up(addr as int, order) + (pow2(order) - 1) <= usize::MAX,
        align_up(align_up(addr as int, order), order) == align_up(addr as int, order),
{
    lemma_align_up_window(addr as int, order);
    lemma_multiple_fits_word(align_up(addr as int, order), order);
    lemma_align_up_idempotent(addr as int, order);
}

/// Rounding up keeps the order of addresses.
pub proof fn lemma_align_up_monotonic(a: int, b: int, order: nat)
    requires
        a <= b,
    ensures
        align_up(a, order) <= align_up(b, order),
{
    lemma_align_up_window(a, order);
    lemma_align_up_window(b, order);
    if align_up(b, order) < align_up(a, order) {
        lemma_align_up_unique(a, order, align_up(b, order));
    }
}

/// Rounds `addr` up to a multiple of `2^order`. The word addition `addr + (2^order - 1)`
/// must not overflow, and the shift `1 << order` needs `order` below the word width.
pub fn align<T>(addr: T, order: usize) -> (r: T)
    where
        T: MemoryAddress,
    requires
        order < usize::BITS,
        addr@ + (pow2(order as nat) - 1) <= usize::MAX,
    ensures
        (r@ as nat) % pow2(order as nat) == 0,
        addr@ <= r@ < addr@ + pow2(order as nat),
        r@ == align_up(addr@ as int, order as nat),
{
    let one: T = T::from(1usize);
    let order_addr: T = T::from(order);
    proof {
        T::lemma_conversions(1usize, addr);
        T::lemma_conversions(order, addr);
        T::lemma_shifts(one, order_addr);
        lemma_usize_pow2_no_overflow(order as nat);
        lemma_usize_shl_is_mul(1usize, order);
    }
    let bit = one << order_addr;
    proof {
        T::lemma_add_sub(bit, one);
    }
    let o: T = bit - one;
    proof {
        T::lemma_add_sub(addr, o);
        T::lemma_bits(o, o);
    }
    let sum = addr + o;
    let mask = !o;
    proof {
        T::lemma_bits(sum, mask);
        lemma_round_up_word(addr@, order, o@);
        let r = (sum@ & mask@);
        assert(low_bits_mask(order as nat) == o@);
        lemma_usize_low_bits_mask_is_mod(r, order as nat);
        lemma_align_up_unique(addr@ as int, order as nat, r as int);
    }
    sum & mask
}

/// The state bits of a page: free (no bit), taken, and last page of an allocation.
#[derive(Clone, Copy, Debug, PartialEq, Eq, Structural)]
pub enum PageBits {
    Empty,
    Taken,
    Last,
}

impl PageBits {
    /// The bit pattern of the state: 0, bit 0, or bit 1.
    pub open spec fn bits(self) -> u8 {
        match self {
            PageBits::Empty => 0,
            PageBits::Taken => 1,
            PageBits::Last => 2,
        }
    }
}

impl Into<u8> for PageBits {
    fn into(self) -> u8 {
        match self {
            PageBits::Empty => 0,
            PageBits::Taken => 1,
            PageBits::Last => 2,
        }
    }
}

impl IntoSpecImpl<u8> for PageBits {
    open spec fn obeys_into_spec() -> bool {
        true
    }

    open spec fn into_spec(self) -> u8 {
        self.bits()
    }
}

/// The states have distinct patterns, and `Taken` and `Last` are disjoint single bits, so
/// a flags byte can hold both.
pub proof fn lemma_page_bits_distinct(a: PageBits, b: PageBits)
    ensures
        a.bits() == b.bits() <==> a == b,
        PageBits::Taken.bits() & PageBits::Last.bits() == 0,
{
    assert(1u8 & 2u8 == 0) by (bit_vector);
}

/// The bookkeeping of one page frame: its `PageBits` flags.
pub struct Page {
    flags: u8,
}

} // verus!
