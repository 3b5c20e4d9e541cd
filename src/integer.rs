use crate::arith::{lemma_floor_div_twice, lemma_reduce_double, lemma_reduce_in_range};
use vstd::arithmetic::power2::{lemma2_to64, lemma_pow2_pos, lemma_pow2_unfold, pow2};
use vstd::prelude::*;

verus! {

/// The integer among `lo, lo + 1, ..., lo + m - 1` that is congruent to `x`
/// modulo `m`.
pub open spec fn reduce(x: int, lo: int, m: int) -> int {
    lo + (x - lo) % m
}

/// `x` brought into the window of `T`'s values: the two's-complement
/// truncation that machine arithmetic performs.
pub open spec fn wrap<T: Integer>(x: int) -> int {
    reduce(x, T::lowest(), T::modulus())
}

/// Division rounding toward zero, as machine integer division does.
pub open spec fn trunc_div(a: int, b: int) -> int {
    let q = abs(a) / abs(b);
    if (a >= 0) == (b > 0) {
        q
    } else {
        -q
    }
}

/// The magnitude of `a`.
pub open spec fn abs(a: int) -> int {
    if a < 0 {
        -a
    } else {
        a
    }
}

/// A machine integer that can back a fixed-point value.
///
/// Each implementing type is described by its value as a mathematical
/// integer, its bit width, the smallest value it holds and the number of
/// values it holds.  The operations a fixed-point value needs are stated
/// over that description: wrapping addition and subtraction, a wrapping
/// left shift, an arithmetic right shift, and exact multiplication and
/// truncating division where the result fits.
pub trait Integer: Sized + Copy {
    /// The integer this machine value denotes.
    spec fn value(self) -> int;

    /// Number of bits of the representation.
    spec fn width() -> nat;

    /// The smallest representable value.
    spec fn lowest() -> int;

    /// The number of representable values, `2^width`.
    spec fn modulus() -> int;

    /// The machine value holding `x` truncated to this type.
    spec fn from_int(x: int) -> Self;

    /// The value of `self << s` in this type.
    spec fn shl_value(self, s: u32) -> int;

    /// The value of `self >> s` in this type.
    spec fn shr_value(self, s: u32) -> int;

    /// The width is one of the machine widths, the modulus is `2^width`,
    /// and the range starts at zero or is centred on it.
    proof fn lemma_shape()
        ensures
            8 <= Self::width() <= 128,
            Self::modulus() == pow2(Self::width()),
            Self::modulus() >= 0x100,
            Self::lowest() == 0 || Self::lowest() * 2 == -Self::modulus(),
    ;

    /// Every machine value lies in the range.
    proof fn lemma_range(self)
        ensures
            Self::lowest() <= self.value() < Self::lowest() + Self::modulus(),
    ;

    /// `from_int` truncates.
    proof fn lemma_from_int(x: int)
        ensures
            Self::from_int(x).value() == reduce(x, Self::lowest(), Self::modulus()),
    ;

    /// A machine value is determined by its integer.
    proof fn lemma_injective(self, other: Self)
        ensures
            self.value() == other.value() ==> self == other,
    ;

    /// Shifting left by `s` is shifting left by `s - 1` and then doubling,
    /// with wrap-around.
    proof fn lemma_shl_step(self, s: u32)
        requires
            s < Self::width(),
        ensures
            s == 0 ==> self.shl_value(s) == self.value(),
            s > 0 ==> self.shl_value(s) == reduce(
                2 * self.shl_value((s - 1) as u32),
                Self::lowest(),
                Self::modulus(),
            ),
    ;

    /// Shifting right by `s` is shifting right by `s - 1` and then halving,
    /// rounding down.
    proof fn lemma_shr_step(self, s: u32)
        requires
            s < Self::width(),
        ensures
            s == 0 ==> self.shr_value(s) == self.value(),
            s > 0 ==> self.shr_value(s) == self.shr_value((s - 1) as u32) / 2,
    ;

    /// Addition modulo `2^width`.
    fn add_wrapping(self, other: Self) -> (r: Self)
        ensures
            r.value() == reduce(self.value() + other.value(), Self::lowest(), Self::modulus()),
    ;

    /// Subtraction modulo `2^width`.
    fn sub_wrapping(self, other: Self) -> (r: Self)
        ensures
            r.value() == reduce(self.value() - other.value(), Self::lowest(), Self::modulus()),
    ;

    /// `self << s`: multiplication by `2^s` modulo `2^width`.
    fn shl(self, s: u32) -> (r: Self)
        requires
            s < Self::width(),
        ensures
            r.value() == self.shl_value(s),
    ;

    /// `self >> s`: division by `2^s`, rounding toward negative infinity.
    fn shr(self, s: u32) -> (r: Self)
        requires
            s < Self::width(),
        ensures
            r.value() == self.shr_value(s),
    ;

    /// Multiplication whose result fits.
    fn mul_exact(self, other: Self) -> (r: Self)
        requires
            Self::lowest() <= self.value() * other.value() < Self::lowest() + Self::modulus(),
        ensures
            r.value() == self.value() * other.value(),
    ;

    /// Division rounding toward zero, with a nonzero divisor and a result
    /// that fits.
    fn div_trunc(self, other: Self) -> (r: Self)
        requires
            other.value() != 0,
            Self::lowest() <= trunc_div(self.value(), other.value()) < Self::lowest()
                + Self::modulus(),
        ensures
            r.value() == trunc_div(self.value(), other.value()),
    ;
}

/// `self << s` in `T` is `self * 2^s`, wrapped.
pub proof fn lemma_shl<T: Integer>(x: T, s: u32)
    requires
        s < T::width(),
    ensures
        x.shl_value(s) == wrap::<T>(x.value() * pow2(s as nat)),
    decreases s,
{
    T::lemma_shape();
    lemma_pow2_pos(T::width());
    x.lemma_shl_step(s);
    if s == 0 {
        lemma2_to64();
        x.lemma_range();
        lemma_reduce_in_range(x.value(), T::lowest(), T::modulus());
        assert(x.value() * pow2(0) == x.value());
    } else {
        let t = (s - 1) as u32;
        let p = pow2(t as nat) as int;
        let v = x.value();
        lemma_shl(x, t);
        lemma_reduce_double(v * p, T::lowest(), T::modulus());
        lemma_pow2_unfold(s as nat);
        assert(pow2(s as nat) == 2 * p);
        assert(2 * (v * p) == v * (2 * p)) by (nonlinear_arith);
        assert(x.shl_value(s) == reduce(v * pow2(s as nat), T::lowest(), T::modulus()));
    }
}

/// `self >> s` in `T` is `self / 2^s`, rounded toward negative infinity.
pub proof fn lemma_shr<T: Integer>(x: T, s: u32)
    requires
        s < T::width(),
    ensures
        x.shr_value(s) == x.value() / (pow2(s as nat) as int),
    decreases s,
{
    x.lemma_shr_step(s);
    if s == 0 {
        lemma2_to64();
        assert(x.value() / 1 == x.value());
    } else {
        let t = (s - 1) as u32;
        let p = pow2(t as nat) as int;
        lemma_shr(x, t);
        lemma_pow2_pos(t as nat);
        lemma_pow2_unfold(s as nat);
        lemma_floor_div_twice(x.value(), p, 2);
        assert(pow2(s as nat) == p * 2);
    }
}

} // verus!
