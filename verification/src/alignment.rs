//! Powers of two and the alignment that a size brings with it.

use vstd::arithmetic::div_mod::{lemma_fundamental_div_mod, lemma_mod_multiples_basic};
use vstd::arithmetic::mul::lemma_mul_is_commutative;
use vstd::arithmetic::power2::is_pow2;
use vstd::prelude::*;

verus! {

/// A power of two has one bit set, so taking one away from it clears that bit
/// and sets only bits below it.
proof fn lemma_single_bit(n: usize)
    ensures
        is_pow2(n as int) == (n != 0 && n & ((n - 1) as usize) == 0),
    decreases n,
{
    reveal(is_pow2);
    if n <= 1 {
        assert(1usize & 0usize == 0) by (bit_vector);
    } else {
        // the bit of a power of two above one is not the lowest, and halving
        // moves it down by one place
        let half = n / 2;
        lemma_single_bit(half);
        assert(n > 1 && half == n / 2 ==> ((n & ((n - 1) as usize) == 0) == (n % 2 == 0
            && half & ((half - 1) as usize) == 0))) by (bit_vector);
    }
}

/// Tells whether `n` is a power of two.
pub fn is_power_of_two(n: usize) -> (yes: bool)
    ensures
        yes == is_pow2(n as int),
{
    proof {
        lemma_single_bit(n);
    }
    n != 0 && n & (n - 1) == 0
}

/// The alignment that plain allocation of `size` bytes guarantees: the
/// largest power of two that divides `size` and is at most `cap`.
pub open spec fn natural_alignment(size: nat, cap: nat) -> nat
    decreases size,
{
    if size > 0 && size % 2 == 0 && cap >= 2 {
        2 * natural_alignment(size / 2, cap / 2)
    } else {
        1
    }
}

/// A number whose remainder by `m` is zero is `m` times its quotient by `m`.
proof fn lemma_quotient(x: int, m: int)
    requires
        m > 0,
        x % m == 0,
    ensures
        x == (x / m) * m,
{
    lemma_fundamental_div_mod(x, m);
    lemma_mul_is_commutative(m, x / m);
}

/// A multiple of a multiple of `align` is a multiple of `align`.
pub proof fn lemma_aligned_to_divisor(ptr: nat, natural: nat, align: nat)
    requires
        align > 0,
        natural > 0,
        ptr % natural == 0,
        natural % align == 0,
    ensures
        ptr % align == 0,
{
    let p = ptr as int / natural as int;
    let n = natural as int / align as int;
    lemma_quotient(ptr as int, natural as int);
    lemma_quotient(natural as int, align as int);
    assert(ptr == (p * n) * align) by (nonlinear_arith)
        requires
            ptr == p * natural,
            natural == n * align,
    ;
    lemma_mod_multiples_basic(p * n, align as int);
}

/// `natural_alignment(size, cap)` is a power of two that divides `size` and
/// is at most `cap`, and every power of two that does so divides it.
pub proof fn lemma_natural_alignment(size: nat, cap: nat, align: nat)
    requires
        size > 0,
        cap > 0,
    ensures
        is_pow2(natural_alignment(size, cap) as int),
        size % natural_alignment(size, cap) == 0,
        natural_alignment(size, cap) <= cap,
        is_pow2(align as int) && align <= cap && size % align == 0 ==> natural_alignment(size, cap)
            % align == 0,
    decreases size,
{
    reveal(is_pow2);
    let divides = is_pow2(align as int) && align <= cap && size % align == 0 && align > 1;
    if divides {
        // an even divisor makes `size` even, and its half divides the half of `size`
        let q = size as int / align as int;
        let h = align as int / 2;
        lemma_quotient(size as int, align as int);
        assert(size == 2 * (q * h)) by (nonlinear_arith)
            requires
                size == q * align,
                align == 2 * h,
        ;
        lemma_mod_multiples_basic(q, h);
    }
    if size % 2 == 0 && cap >= 2 {
        let half = natural_alignment(size / 2, cap / 2);
        lemma_natural_alignment(size / 2, cap / 2, align / 2);
        let r = (size as int / 2) / half as int;
        lemma_quotient(size as int / 2, half as int);
        assert(size == r * (2 * half)) by (nonlinear_arith)
            requires
                size == 2 * (size as int / 2),
                size as int / 2 == r * half,
        ;
        lemma_mod_multiples_basic(r, 2 * half as int);
        if divides {
            let t = half as int / (align as int / 2);
            lemma_quotient(half as int, align as int / 2);
            assert(2 * half == t * align) by (nonlinear_arith)
                requires
                    half == t * (align as int / 2),
                    align == 2 * (align as int / 2),
            ;
            lemma_mod_multiples_basic(t, align as int);
        }
    }
}

} // verus!
