//! Alignment arithmetic used when laying out engine objects.
use vstd::arithmetic::div_mod::{lemma_fundamental_div_mod, lemma_mod_multiples_basic};
use vstd::arithmetic::power2::{lemma_pow2_pos, pow2};
use vstd::bits::{lemma_usize_low_bits_mask_is_mod, low_bits_mask};
use vstd::prelude::*;

verus! {

/// Whether `sz` is a power of two that a `usize` can hold.
pub open spec fn is_pow2(sz: usize) -> bool {
    exists|n: nat| n < usize::BITS && sz == pow2(n)
}

/// The smallest multiple of `sz` that is at least `x`.
pub open spec fn aligned_up(x: int, sz: int) -> int {
    ((x + sz - 1) / sz) * sz
}

/// Rounds `x` up to the next multiple of `sz`, which must be a power of two.
pub fn llt_align(x: usize, sz: usize) -> (r: usize)
    requires
        is_pow2(sz),
        x + sz - 1 <= usize::MAX,
    ensures
        r == aligned_up(x as int, sz as int),
        r % sz == 0,
        x <= r < x + sz,
{
    proof {
        let n = choose|n: nat| n < usize::BITS && sz == pow2(n);
        lemma_pow2_pos(n);
        let y: usize = (x + sz - 1) as usize;
        let m: usize = (sz - 1) as usize;
        assert(m == low_bits_mask(n) as usize);
        lemma_usize_low_bits_mask_is_mod(y, n);
        assert(y & !m == y - (y & m)) by (bit_vector);
        lemma_fundamental_div_mod(y as int, sz as int);
        lemma_mod_multiples_basic(y as int / sz as int, sz as int);
        assert(y & !m == (y as int / sz as int) * sz);
    }
    (x + (sz - 1)) & !(sz - 1)
}

} // verus!
