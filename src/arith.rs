//! Facts of integer arithmetic that the machine operations rest on:
//! reduction into a window, division of either sign, and how much room a
//! type of twice the width leaves.
use crate::integer::{abs, reduce, trunc_div};
use vstd::arithmetic::div_mod::{
    lemma_div_denominator, lemma_div_is_ordered_by_denominator, lemma_div_multiples_vanish,
    lemma_div_pos_is_pos, lemma_fundamental_div_mod, lemma_fundamental_div_mod_converse,
    lemma_mod_bound, lemma_mod_multiples_vanish, lemma_small_mod,
};
use vstd::arithmetic::mul::lemma_mul_is_commutative;
use vstd::arithmetic::power2::{
    lemma_pow2_pos, lemma_pow2_strictly_increases, lemma_pow2_unfold, pow2,
};
use vstd::prelude::*;

verus! {

/// Floor division by `c` and then by `d` is floor division by `c * d`, for
/// dividends of either sign.
pub proof fn lemma_floor_div_twice(x: int, c: int, d: int)
    requires
        c > 0,
        d > 0,
    ensures
        (x / c) / d == x / (c * d),
{
    let q1 = x / c;
    let r1 = x % c;
    let q2 = q1 / d;
    let r2 = q1 % d;
    lemma_fundamental_div_mod(x, c);
    lemma_fundamental_div_mod(q1, d);
    lemma_mod_bound(x, c);
    lemma_mod_bound(q1, d);
    assert(x == (c * d) * q2 + (c * r2 + r1) && 0 <= c * r2 + r1 < c * d) by (nonlinear_arith)
        requires
            x == c * q1 + r1,
            q1 == d * q2 + r2,
            0 <= r1 < c,
            0 <= r2 < d,
    ;
    lemma_mul_is_commutative(c * d, q2);
    lemma_fundamental_div_mod_converse(x, c * d, q2, c * r2 + r1);
}

/// Doubling commutes with reduction.
pub proof fn lemma_reduce_double(y: int, lo: int, m: int)
    requires
        m > 0,
    ensures
        reduce(2 * reduce(y, lo, m), lo, m) == reduce(2 * y, lo, m),
{
    let q = (y - lo) / m;
    let r = (y - lo) % m;
    lemma_fundamental_div_mod(y - lo, m);
    assert(2 * y - lo == m * (2 * q) + (2 * r + lo)) by (nonlinear_arith)
        requires
            y - lo == m * q + r,
    ;
    lemma_mod_multiples_vanish(2 * q, 2 * r + lo, m);
}

/// Machine division written with Euclidean division: for a nonnegative
/// dividend it is `a / b`, and a negative dividend is divided as its
/// negation, with the sign of the quotient flipped.
pub proof fn lemma_trunc_div_euclid(a: int, b: int)
    requires
        b != 0,
    ensures
        trunc_div(a, b) == if a >= 0 {
            a / b
        } else {
            -((-a) / b)
        },
{
    let n = abs(a);
    if b < 0 {
        let c = -b;
        let q = n / c;
        let r = n % c;
        lemma_fundamental_div_mod(n, c);
        lemma_mod_bound(n, c);
        assert(n / b == -q) by (nonlinear_arith)
            requires
                b < 0,
                c == -b,
                n == c * q + r,
                0 <= r < c,
        ;
    }
}

/// Machine division cancels a common positive factor.
pub proof fn lemma_trunc_div_cancel(a: int, b: int, p: int)
    requires
        b != 0,
        p > 0,
    ensures
        trunc_div(a * p, b * p) == trunc_div(a, b),
        b * p != 0,
{
    let x = abs(a);
    let y = abs(b);
    assert(abs(a * p) == x * p && abs(b * p) == y * p && y * p > 0 && x * p >= 0) by (nonlinear_arith)
        requires
            p > 0,
            b != 0,
            x == abs(a),
            y == abs(b),
    ;
    assert((a * p >= 0) == (a >= 0) && (b * p > 0) == (b > 0) && (a * p == 0) == (a == 0))
        by (nonlinear_arith)
        requires
            p > 0,
    ;
    lemma_mul_is_commutative(x, p);
    lemma_mul_is_commutative(y, p);
    lemma_div_multiples_vanish(x, p);
    lemma_div_denominator(x * p, p, y);
    assert((x * p) / (y * p) == x / y);
}

/// Machine division makes nothing larger in magnitude.
pub proof fn lemma_trunc_div_bound(a: int, b: int)
    requires
        b != 0,
    ensures
        abs(trunc_div(a, b)) <= abs(a),
        a >= 0 && b > 0 ==> trunc_div(a, b) >= 0,
{
    let x = abs(a);
    let y = abs(b);
    lemma_div_is_ordered_by_denominator(x, 1, y);
    lemma_div_pos_is_pos(x, y);
}

/// A product of two values of a type with modulus `m` and least value
/// `lo` fits in the type of twice the width.
pub proof fn lemma_product_room(a: int, b: int, lo: int, m: int)
    requires
        m >= 4,
        lo == 0 || lo * 2 == -m,
        lo <= a < lo + m,
        lo <= b < lo + m,
    ensures
        lo * m <= a * b < lo * m + m * m,
{
    if lo == 0 {
        assert(0 <= a * b < m * m) by (nonlinear_arith)
            requires
                0 <= a < m,
                0 <= b < m,
        ;
    } else {
        let h = -lo;
        assert(-2 * (h * h) <= a * b < 2 * (h * h)) by (nonlinear_arith)
            requires
                h >= 2,
                -h <= a < h,
                -h <= b < h,
        ;
        assert(lo * m == -2 * (h * h) && m * m == 4 * (h * h)) by (nonlinear_arith)
            requires
                h == -lo,
                m == 2 * h,
        ;
    }
}

/// A value of a type with modulus `m` and least value `lo`, scaled by at
/// most `m / 2`, fits in the type of twice the width.
pub proof fn lemma_scaled_room(a: int, p: int, lo: int, m: int)
    requires
        m >= 4,
        lo == 0 || lo * 2 == -m,
        lo <= a < lo + m,
        1 <= p,
        p * 2 <= m,
    ensures
        lo * m <= a * p < lo * m + m * m,
{
    if lo == 0 {
        assert(0 <= a * p < m * m) by (nonlinear_arith)
            requires
                0 <= a < m,
                1 <= p,
                p * 2 <= m,
        ;
    } else {
        let h = -lo;
        assert(-2 * (h * h) <= a * p < 2 * (h * h)) by (nonlinear_arith)
            requires
                h >= 2,
                -h <= a < h,
                1 <= p <= h,
        ;
        assert(lo * m == -2 * (h * h) && m * m == 4 * (h * h)) by (nonlinear_arith)
            requires
                h == -lo,
                m == 2 * h,
        ;
    }
}

/// The quotient of two values of a type with modulus `m` and least value
/// `lo` fits in the type of twice the width.
pub proof fn lemma_quotient_room(a: int, b: int, lo: int, m: int)
    requires
        m >= 4,
        lo == 0 || lo * 2 == -m,
        lo <= a < lo + m,
        lo <= b < lo + m,
        b != 0,
    ensures
        lo * m <= trunc_div(a, b) < lo * m + m * m,
{
    lemma_trunc_div_bound(a, b);
    if lo == 0 {
        assert(m <= m * m) by (nonlinear_arith)
            requires
                m >= 4,
        ;
    } else {
        let h = -lo;
        assert(lo * m == -2 * (h * h) && m * m == 4 * (h * h) && h <= h * h) by (nonlinear_arith)
            requires
                h == -lo,
                m == 2 * h,
                h >= 2,
        ;
    }
}

/// For `q < w`, `2^q` is at least one and at most half of `2^w`.
pub proof fn lemma_pow2_half(q: nat, w: nat)
    requires
        q < w,
    ensures
        1 <= pow2(q),
        2 * pow2(q) <= pow2(w),
{
    lemma_pow2_pos(q);
    lemma_pow2_unfold(q + 1);
    if q + 1 < w {
        lemma_pow2_strictly_increases(q + 1, w);
    }
}

/// Taking `y` away after reduction is reduction of the difference:
/// reducing `reduce(x) - y` gives the same as reducing `x - y`.
pub proof fn lemma_reduce_sub_right(x: int, y: int, lo: int, m: int)
    requires
        m > 0,
    ensures
        reduce(reduce(x, lo, m) - y, lo, m) == reduce(x - y, lo, m),
{
    let q = (x - lo) / m;
    let r = (x - lo) % m;
    lemma_fundamental_div_mod(x - lo, m);
    assert(x - y - lo == m * q + (r - y)) by (nonlinear_arith)
        requires
            x - lo == m * q + r,
    ;
    lemma_mod_multiples_vanish(q, r - y, m);
}

/// `q` is the floor of half of `y` when `2q <= y < 2q + 2`.
pub proof fn lemma_half(y: int, q: int)
    requires
        q * 2 <= y < q * 2 + 2,
    ensures
        q == y / 2,
{
    lemma_fundamental_div_mod_converse(y, 2, q, y - q * 2);
}

/// A value already in the window is its own reduction.
pub proof fn lemma_reduce_in_range(x: int, lo: int, m: int)
    requires
        lo <= x < lo + m,
    ensures
        reduce(x, lo, m) == x,
{
    lemma_small_mod((x - lo) as nat, m as nat);
}

/// The reduction of any integer lies in the window.
pub proof fn lemma_reduce_range(x: int, lo: int, m: int)
    requires
        m > 0,
    ensures
        lo <= reduce(x, lo, m) < lo + m,
{
    lemma_mod_bound(x - lo, m);
}

/// Reduction ignores one modulus added or taken away, so a value that
/// lies one modulus away from the window reduces to its shifted self.
pub proof fn lemma_reduce_shift(x: int, lo: int, m: int)
    requires
        m > 0,
    ensures
        reduce(x + m, lo, m) == reduce(x, lo, m),
        reduce(x - m, lo, m) == reduce(x, lo, m),
        lo <= x < lo + m ==> reduce(x, lo, m) == x,
        lo <= x - m < lo + m ==> reduce(x, lo, m) == x - m,
        lo <= x + m < lo + m ==> reduce(x, lo, m) == x + m,
{
    lemma_mod_multiples_vanish(1, x - lo, m);
    lemma_mod_multiples_vanish(-1, x - lo, m);
    if lo <= x < lo + m {
        lemma_reduce_in_range(x, lo, m);
    }
    if lo <= x - m < lo + m {
        lemma_reduce_in_range(x - m, lo, m);
    }
    if lo <= x + m < lo + m {
        lemma_reduce_in_range(x + m, lo, m);
    }
}

} // verus!
