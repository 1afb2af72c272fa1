//! Rounding addresses up to a power-of-two alignment.
use vstd::prelude::*;

verus! {

/// `align` has exactly one bit set.
pub open spec fn is_power_of_two(align: usize) -> bool {
    align != 0 && align & ((align - 1) as usize) == 0
}

/// The least multiple of `align` that is at least `addr`.
pub open spec fn round_up(addr: int, align: int) -> int {
    if addr % align == 0 {
        addr
    } else {
        addr - addr % align + align
    }
}

/// `round_up` is a multiple of `align` within `align` of `addr`, and it is the
/// only such value.
pub proof fn lemma_round_up(addr: int, align: int)
    requires
        0 <= addr,
        0 < align,
    ensures
        round_up(addr, align) % align == 0,
        addr <= round_up(addr, align) < addr + align,
        forall|r: int|
            #[trigger] (r % align) == 0 && addr <= r < addr + align ==> r == round_up(addr, align),
{
    let q = addr / align;
    let m = addr % align;
    assert(addr == align * q + m && 0 <= m < align) by (nonlinear_arith)
        requires
            0 < align,
            q == addr / align,
            m == addr % align,
    ;
    assert(round_up(addr, align) % align == 0) by (nonlinear_arith)
        requires
            0 < align,
            addr == align * q + m,
            0 <= m < align,
            round_up(addr, align) == if m == 0 { addr } else { addr - m + align },
    ;
    assert forall|r: int| #[trigger] (r % align) == 0 && addr <= r < addr + align implies r == round_up(
        addr,
        align,
    ) by {
        let k = r / align;
        assert(r == align * k) by (nonlinear_arith)
            requires
                0 < align,
                k == r / align,
                r % align == 0,
        ;
        assert(r == round_up(addr, align)) by (nonlinear_arith)
            requires
                0 < align,
                r == align * k,
                addr == align * q + m,
                0 <= m < align,
                addr <= r < addr + align,
                round_up(addr, align) == if m == 0 { addr } else { addr - m + align },
        ;
    }
}

/// Rounds `addr` up to the next multiple of `align` by way of the remainder.
pub fn align_up(addr: usize, align: usize) -> (r: usize)
    requires
        align > 0,
        round_up(addr as int, align as int) <= usize::MAX,
    ensures
        r == round_up(addr as int, align as int),
        r % align == 0,
        addr <= r < addr + align,
{
    proof {
        lemma_round_up(addr as int, align as int);
    }
    let remainder = addr % align;
    if remainder == 0 {
        addr
    } else {
        assert(remainder <= addr) by (nonlinear_arith)
            requires
                align > 0,
                remainder == addr % align,
        ;
        assert(addr - remainder + align == round_up(addr as int, align as int));
        addr - remainder + align
    }
}

/// A value whose bits below the single bit of `align` are clear is a multiple
/// of `align`.
#[verifier::rlimit(100)]
pub proof fn lemma_low_bits_clear_is_multiple(x: usize, align: usize)
    by (bit_vector)
    requires
        align != 0,
        align & ((align - 1) as usize) == 0,
        x & ((align - 1) as usize) == 0,
    ensures
        x % align == 0,
{
}

/// Rounds `addr` up to the next multiple of `align` by masking off the low
/// bits: `align - 1` has every bit below the single bit of `align` set, so
/// `& !(align - 1)` drops them from `addr + align - 1`.
pub fn _align_up(addr: usize, align: usize) -> (r: usize)
    requires
        is_power_of_two(align),
        addr + align - 1 <= usize::MAX,
    ensures
        r == round_up(addr as int, align as int),
        r % align == 0,
        addr <= r < addr + align,
{
    let r = (addr + (align - 1)) & !(align - 1);
    assert(r & ((align - 1) as usize) == 0 && addr <= r && r < addr + align) by (bit_vector)
        requires
            align != 0,
            align & ((align - 1) as usize) == 0,
            ((addr + align - 1) as usize) as int == addr + align - 1,
            r == ((addr + align - 1) as usize) & !((align - 1) as usize),
    ;
    proof {
        lemma_low_bits_clear_is_multiple(r, align);
        lemma_round_up(addr as int, align as int);
    }
    r
}

} // verus!
