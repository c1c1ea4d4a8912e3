//! Rounding byte counts up to an alignment boundary.

use vstd::arithmetic::div_mod::{
    lemma_fundamental_div_mod, lemma_fundamental_div_mod_converse_mod,
};
use vstd::arithmetic::power2::{
    is_pow2, is_pow2_equiv, lemma2_to64, lemma_pow2, lemma_pow2_adds, lemma_pow2_pos,
    lemma_pow2_strictly_increases, pow2,
};
use vstd::bits::{lemma_u32_low_bits_mask_is_mod, low_bits_mask};
use vstd::prelude::*;

verus! {

/// The smallest multiple of `a` that is at least `n`, for positive `a`.
pub open spec fn align_up_spec(n: nat, a: nat) -> nat {
    if n % a == 0 {
        n
    } else {
        (n - n % a + a) as nat
    }
}

/// `align_up_spec(n, a)` is a multiple of `a`, lies in `[n, n + a)`, and no
/// multiple of `a` lies between `n` and it.
pub proof fn lemma_align_up_least_multiple(n: nat, a: nat)
    requires
        a > 0,
    ensures
        align_up_spec(n, a) % a == 0,
        n <= align_up_spec(n, a) < n + a,
        forall|m: nat| n <= m && #[trigger] (m % a) == 0 ==> align_up_spec(n, a) <= m,
{
    let r = align_up_spec(n, a);
    let q = (n / a) as int;
    lemma_fundamental_div_mod(n as int, a as int);
    if n % a != 0 {
        assert((q + 1) * a == a * q + a) by (nonlinear_arith);
        lemma_fundamental_div_mod_converse_mod(r as int, a as int, q + 1, 0);
    }
    assert forall|m: nat| n <= m && #[trigger] (m % a) == 0 implies r <= m by {
        if m < r {
            // m and r are multiples of a less than a apart, with m the smaller
            let p = (m / a) as int;
            let s = (r / a) as int;
            lemma_fundamental_div_mod(m as int, a as int);
            lemma_fundamental_div_mod(r as int, a as int);
            assert(p < s ==> a * p + a <= a * s) by (nonlinear_arith)
                requires
                    a > 0,
            ;
            assert(p >= s ==> a * p >= a * s) by (nonlinear_arith)
                requires
                    a > 0,
            ;
        }
    }
}

/// Rounding up a value that is already rounded up changes nothing.
pub proof fn lemma_align_up_idempotent(n: nat, a: nat)
    requires
        a > 0,
    ensures
        align_up_spec(align_up_spec(n, a), a) == align_up_spec(n, a),
{
    lemma_align_up_least_multiple(n, a);
}

/// Rounding down `n + a - 1` to a multiple of `a` rounds `n` up.
proof fn lemma_round_down_shifted(n: nat, a: nat)
    requires
        a > 0,
    ensures
        (n + a - 1) - (n + a - 1) % (a as int) == align_up_spec(n, a),
{
    let q = (n / a) as int;
    let r = (n % a) as int;
    let x = n + a - 1;
    lemma_fundamental_div_mod(n as int, a as int);
    if r == 0 {
        assert(x == q * a + (a - 1)) by (nonlinear_arith)
            requires
                n == a * q + r,
                r == 0,
                x == n + a - 1,
        ;
        lemma_fundamental_div_mod_converse_mod(x, a as int, q, a - 1);
    } else {
        assert(x == (q + 1) * a + (r - 1)) by (nonlinear_arith)
            requires
                n == a * q + r,
                x == n + a - 1,
        ;
        lemma_fundamental_div_mod_converse_mod(x, a as int, q + 1, r - 1);
    }
}

/// A power of two that fits in 32 bits is `2^k` for some `k < 32`.
proof fn lemma_pow2_exponent(a: u32) -> (k: nat)
    requires
        is_pow2(a as int),
    ensures
        k < 32,
        a == pow2(k),
{
    is_pow2_equiv(a as int);
    let k = choose|i: nat| vstd::arithmetic::power::pow(2, i) == a as int;
    lemma_pow2(k);
    lemma2_to64();
    if k > 32 {
        lemma_pow2_strictly_increases(32, k);
    }
    k
}

/// The rounded value fits in 32 bits exactly when `num + align - 1` does,
/// the sum that the mask is applied to.
pub proof fn lemma_aligned_fits_iff_sum_fits(num: u32, align: u32)
    requires
        is_pow2(align as int),
    ensures
        align > 0,
        align_up_spec(num as nat, align as nat) <= u32::MAX <==> num + align - 1 <= u32::MAX,
{
    let k = lemma_pow2_exponent(align);
    lemma_pow2_pos(k);
    let a = align as nat;
    let r = align_up_spec(num as nat, a);
    lemma_align_up_least_multiple(num as nat, a);
    if r <= u32::MAX {
        // 2^32 is a multiple of align, so the multiple r below it is at least align below
        lemma_pow2_adds((32 - k) as nat, k);
        lemma2_to64();
        let p = pow2((32 - k) as nat) as int;
        let q = (r / a) as int;
        lemma_fundamental_div_mod(r as int, a as int);
        assert(q < p) by (nonlinear_arith)
            requires
                a * q < p * a,
                a > 0,
        ;
        assert(a * q + a <= p * a) by (nonlinear_arith)
            requires
                q < p,
                a > 0,
        ;
    }
}

/// Rounds `num` up to the next multiple of `align`, which must be a power
/// of two; the rounded value must fit in 32 bits.
pub fn align_up(num: u32, align: u32) -> (aligned: u32)
    requires
        is_pow2(align as int),
        align_up_spec(num as nat, align as nat) <= u32::MAX,
    ensures
        aligned == align_up_spec(num as nat, align as nat),
        aligned % align == 0,
        num <= aligned < num + align,
        forall|m: nat| num <= m && #[trigger] (m % (align as nat)) == 0 ==> aligned <= m,
{
    proof {
        lemma_aligned_fits_iff_sum_fits(num, align);
        lemma_align_up_least_multiple(num as nat, align as nat);
    }
    let mask: u32 = align - 1;
    let sum: u32 = num + mask;
    proof {
        let k = lemma_pow2_exponent(align);
        assert(mask == low_bits_mask(k) as u32);
        lemma_u32_low_bits_mask_is_mod(sum, k);
        assert(sum & !mask == sum - (sum & mask)) by (bit_vector);
        lemma_round_down_shifted(num as nat, align as nat);
    }
    sum & !mask
}

} // verus!
