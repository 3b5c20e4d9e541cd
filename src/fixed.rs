use crate::arith::{
    lemma_pow2_half, lemma_product_room, lemma_quotient_room, lemma_reduce_in_range,
    lemma_reduce_sub_right, lemma_scaled_room, lemma_trunc_div_cancel,
};
use crate::integer::{lemma_shl, lemma_shr, trunc_div, wrap, Integer};
use crate::widen::{Shrink, Widen};
use vstd::arithmetic::power2::pow2;
use vstd::prelude::*;
use vstd::std_specs::ops::{AddSpec, DivSpec, MulSpec, SubSpec};

verus! {

/// A fixed-point number: a raw integer of type `T` standing for
/// `raw / 2^Q`, where `Q` is the number of fractional bits.
///
/// The value is a plain copyable scalar; every operation makes a new one.
/// Addition and subtraction wrap as the raw type does.  Multiplication and
/// division work in the next wider type and truncate the result back, so
/// they exist only where `T` implements `Widen`: not for 128-bit raw types.
///
/// Multiplication shifts the wide product right by `2 * Q` bits and
/// division scales both operands alike, so neither result carries `Q`
/// fractional bits: `new(3) * new(2)` has raw value 6 and
/// `new(6) / new(2)` has raw value 3.  Division by a value whose raw
/// integer is zero traps in the machine division; the operators' contracts
/// rule it out.
#[derive(Clone, Copy)]
pub struct Fyx<T: Integer, const Q: usize>(T);

impl<T: Integer, const Q: usize> View for Fyx<T, Q> {
    type V = int;

    /// The raw integer, before the scale `2^Q` is applied.
    closed spec fn view(&self) -> int {
        self.0.value()
    }
}

/// The raw value that `new(v)` stores: `v * 2^Q`, truncated to `T`.
pub open spec fn scaled<T: Integer>(v: T, q: nat) -> int {
    wrap::<T>(v.value() * pow2(q))
}

impl<T: Integer, const Q: usize> Fyx<T, Q> {
    /// The value holding raw integer `x` truncated to `T`.
    pub closed spec fn from_raw(x: int) -> Self {
        Fyx(T::from_int(x))
    }

    /// The value `new(v)` returns.
    pub open spec fn spec_new(v: T) -> Self {
        Self::from_raw(v.value() * pow2(Q as nat))
    }

    /// The raw integer of a value built from `x` is `x` truncated to `T`.
    pub proof fn lemma_from_raw(x: int)
        ensures
            Self::from_raw(x)@ == wrap::<T>(x),
    {
        T::lemma_from_int(x);
    }

    /// A value is determined by its raw integer.
    pub proof fn lemma_view_injective(a: Self, b: Self)
        ensures
            a@ == b@ ==> a == b,
    {
        a.0.lemma_injective(b.0);
    }

    /// Every value is the one built from its own raw integer.
    pub proof fn lemma_from_own_raw(a: Self)
        ensures
            Self::from_raw(a@) == a,
    {
        a.0.lemma_range();
        T::lemma_shape();
        lemma_reduce_in_range(a@, T::lowest(), T::modulus());
        Self::lemma_from_raw(a@);
        Self::lemma_view_injective(Self::from_raw(a@), a);
    }

    /// Makes the fixed-point number for the whole number `v`: the raw
    /// integer is `v << Q`, that is `v * 2^Q` truncated to `T`.
    pub fn new(v: T) -> (r: Self)
        requires
            Q < T::width(),
        ensures
            r == Self::spec_new(v),
            r@ == scaled(v, Q as nat),
    {
        proof {
            T::lemma_shape();
        }
        let s = Q as u32;
        proof {
            lemma_shl(v, s);
        }
        let r = Fyx(v.shl(s));
        proof {
            Self::lemma_from_raw(v.value() * pow2(Q as nat));
            Self::lemma_view_injective(r, Self::spec_new(v));
        }
        r
    }

    /// The raw integer.
    pub fn raw(self) -> (r: T)
        ensures
            r.value() == self@,
    {
        self.0
    }
}

impl<T: Integer, const Q: usize> core::ops::Add for Fyx<T, Q> {
    type Output = Fyx<T, Q>;

    fn add(self, other: Fyx<T, Q>) -> (r: Fyx<T, Q>) {
        let r = Fyx(self.0.add_wrapping(other.0));
        proof {
            Self::lemma_from_raw(self@ + other@);
            Self::lemma_view_injective(r, Self::from_raw(self@ + other@));
        }
        r
    }
}

impl<T: Integer, const Q: usize> vstd::std_specs::ops::AddSpecImpl for Fyx<T, Q> {
    open spec fn obeys_add_spec() -> bool {
        true
    }

    open spec fn add_req(self, rhs: Fyx<T, Q>) -> bool {
        true
    }

    /// The raw integers added, wrapping in `T`.
    open spec fn add_spec(self, rhs: Fyx<T, Q>) -> Fyx<T, Q> {
        Self::from_raw(self@ + rhs@)
    }
}

impl<T: Integer, const Q: usize> core::ops::Add<T> for Fyx<T, Q> {
    type Output = Fyx<T, Q>;

    fn add(self, other: T) -> (r: Fyx<T, Q>) {
        self + Fyx::new(other)
    }
}

impl<T: Integer, const Q: usize> vstd::std_specs::ops::AddSpecImpl<T> for Fyx<T, Q> {
    open spec fn obeys_add_spec() -> bool {
        true
    }

    open spec fn add_req(self, rhs: T) -> bool {
        Q < T::width()
    }

    /// The whole number `rhs` added: `self + new(rhs)`.
    open spec fn add_spec(self, rhs: T) -> Fyx<T, Q> {
        Self::from_raw(self@ + scaled(rhs, Q as nat))
    }
}

impl<T: Integer, const Q: usize> core::ops::Sub for Fyx<T, Q> {
    type Output = Fyx<T, Q>;

    fn sub(self, other: Fyx<T, Q>) -> (r: Fyx<T, Q>) {
        let r = Fyx(self.0.sub_wrapping(other.0));
        proof {
            Self::lemma_from_raw(self@ - other@);
            Self::lemma_view_injective(r, Self::from_raw(self@ - other@));
        }
        r
    }
}

impl<T: Integer, const Q: usize> vstd::std_specs::ops::SubSpecImpl for Fyx<T, Q> {
    open spec fn obeys_sub_spec() -> bool {
        true
    }

    open spec fn sub_req(self, rhs: Fyx<T, Q>) -> bool {
        true
    }

    /// The raw integers subtracted, wrapping in `T`.
    open spec fn sub_spec(self, rhs: Fyx<T, Q>) -> Fyx<T, Q> {
        Self::from_raw(self@ - rhs@)
    }
}

impl<T: Integer, const Q: usize> core::ops::Sub<T> for Fyx<T, Q> {
    type Output = Fyx<T, Q>;

    fn sub(self, other: T) -> (r: Fyx<T, Q>) {
        self - Fyx::new(other)
    }
}

impl<T: Integer, const Q: usize> vstd::std_specs::ops::SubSpecImpl<T> for Fyx<T, Q> {
    open spec fn obeys_sub_spec() -> bool {
        true
    }

    open spec fn sub_req(self, rhs: T) -> bool {
        Q < T::width()
    }

    /// The whole number `rhs` subtracted: `self - new(rhs)`.
    open spec fn sub_spec(self, rhs: T) -> Fyx<T, Q> {
        Self::from_raw(self@ - scaled(rhs, Q as nat))
    }
}

impl<T: Widen, const Q: usize> core::ops::Mul for Fyx<T, Q> {
    type Output = Fyx<T, Q>;

    fn mul(self, other: Fyx<T, Q>) -> (r: Fyx<T, Q>) {
        proof {
            T::lemma_room();
            T::lemma_shape();
            self.0.lemma_range();
            other.0.lemma_range();
            lemma_product_room(self@, other@, T::lowest(), T::modulus());
        }
        let a = self.0.widen();
        let b = other.0.widen();
        let p = a.mul_exact(b);
        let s = (Q * 2) as u32;
        proof {
            lemma_shr(p, s);
        }
        let n = p.shr(s).shrink();
        let r = Fyx(n);
        proof {
            let x = (self@ * other@) / (pow2(2 * (Q as nat)) as int);
            Self::lemma_from_raw(x);
            Self::lemma_view_injective(r, Self::from_raw(x));
        }
        r
    }
}

impl<T: Widen, const Q: usize> vstd::std_specs::ops::MulSpecImpl for Fyx<T, Q> {
    open spec fn obeys_mul_spec() -> bool {
        true
    }

    open spec fn mul_req(self, rhs: Fyx<T, Q>) -> bool {
        Q < T::width()
    }

    /// The raw integers multiplied in the wider type, shifted right by
    /// `2 * Q` bits (rounding toward negative infinity) and truncated to
    /// `T`.  Both factors of `2^Q` are taken out, so the raw result is the
    /// whole part of the product of the two numbers, not that product in
    /// `Q` fractional bits.
    open spec fn mul_spec(self, rhs: Fyx<T, Q>) -> Fyx<T, Q> {
        Self::from_raw((self@ * rhs@) / (pow2(2 * (Q as nat)) as int))
    }
}

impl<T: Widen, const Q: usize> core::ops::Mul<T> for Fyx<T, Q> {
    type Output = Fyx<T, Q>;

    fn mul(self, other: T) -> (r: Fyx<T, Q>) {
        self * Fyx::new(other)
    }
}

impl<T: Widen, const Q: usize> vstd::std_specs::ops::MulSpecImpl<T> for Fyx<T, Q> {
    open spec fn obeys_mul_spec() -> bool {
        true
    }

    open spec fn mul_req(self, rhs: T) -> bool {
        Q < T::width()
    }

    /// Multiplication by the whole number `rhs`: `self * new(rhs)`.
    open spec fn mul_spec(self, rhs: T) -> Fyx<T, Q> {
        Self::from_raw((self@ * scaled(rhs, Q as nat)) / (pow2(2 * (Q as nat)) as int))
    }
}

impl<T: Widen, const Q: usize> core::ops::Div for Fyx<T, Q> {
    type Output = Fyx<T, Q>;

    fn div(self, other: Fyx<T, Q>) -> (r: Fyx<T, Q>) {
        let ghost m = T::modulus();
        let ghost lo = T::lowest();
        let ghost p = pow2(Q as nat) as int;
        proof {
            T::lemma_room();
            T::lemma_shape();
            self.0.lemma_range();
            other.0.lemma_range();
            lemma_pow2_half(Q as nat, T::width());
            lemma_scaled_room(self@, p, lo, m);
            lemma_scaled_room(other@, p, lo, m);
            lemma_reduce_in_range(self@ * p, T::Assoc::lowest(), T::Assoc::modulus());
            lemma_reduce_in_range(other@ * p, T::Assoc::lowest(), T::Assoc::modulus());
            lemma_trunc_div_cancel(self@, other@, p);
            lemma_quotient_room(self@, other@, lo, m);
        }
        let s = Q as u32;
        let wa = self.0.widen();
        let wb = other.0.widen();
        proof {
            lemma_shl(wa, s);
            lemma_shl(wb, s);
        }
        let a = wa.shl(s);
        let b = wb.shl(s);
        let n = a.div_trunc(b).shrink();
        let r = Fyx(n);
        proof {
            Self::lemma_from_raw(trunc_div(self@, other@));
            Self::lemma_view_injective(r, Self::from_raw(trunc_div(self@, other@)));
        }
        r
    }
}

impl<T: Widen, const Q: usize> vstd::std_specs::ops::DivSpecImpl for Fyx<T, Q> {
    open spec fn obeys_div_spec() -> bool {
        true
    }

    /// Division by a zero raw value would trap in the machine division, so
    /// it is ruled out here.
    open spec fn div_req(self, rhs: Fyx<T, Q>) -> bool {
        Q < T::width() && rhs@ != 0
    }

    /// Both raw integers are scaled by `2^Q` in the wider type and divided,
    /// rounding toward zero, then truncated to `T`.  The scale cancels, so
    /// the raw result is the machine quotient of the raw integers, not the
    /// quotient of the two numbers in `Q` fractional bits.
    open spec fn div_spec(self, rhs: Fyx<T, Q>) -> Fyx<T, Q> {
        Self::from_raw(trunc_div(self@, rhs@))
    }
}

impl<T: Widen, const Q: usize> core::ops::Div<T> for Fyx<T, Q> {
    type Output = Fyx<T, Q>;

    fn div(self, other: T) -> (r: Fyx<T, Q>) {
        self / Fyx::new(other)
    }
}

impl<T: Widen, const Q: usize> vstd::std_specs::ops::DivSpecImpl<T> for Fyx<T, Q> {
    open spec fn obeys_div_spec() -> bool {
        true
    }

    /// `new(rhs)` must not be zero: division by it would trap.
    open spec fn div_req(self, rhs: T) -> bool {
        Q < T::width() && scaled(rhs, Q as nat) != 0
    }

    /// Division by the whole number `rhs`: `self / new(rhs)`.
    open spec fn div_spec(self, rhs: T) -> Fyx<T, Q> {
        Self::from_raw(trunc_div(self@, scaled(rhs, Q as nat)))
    }
}

impl<T: Integer, const Q: usize> Fyx<T, Q> {
    /// The whole number zero is an identity for addition, on either side.
    pub proof fn lemma_add_zero(v: Self, zero: T)
        requires
            zero.value() == 0,
        ensures
            Self::spec_new(zero).add_spec(v) == v,
            v.add_spec(Self::spec_new(zero)) == v,
    {
        let z = Self::spec_new(zero);
        Self::lemma_from_raw(zero.value() * pow2(Q as nat));
        T::lemma_shape();
        lemma_reduce_in_range(0, T::lowest(), T::modulus());
        assert(z@ == 0);
        Self::lemma_from_own_raw(v);
    }

    /// Subtracting what was added gives back the value one started from.
    /// Both operations wrap, so this holds for all values.
    pub proof fn lemma_sub_after_add(v: Self, w: Self)
        ensures
            v.add_spec(w).sub_spec(w) == v,
    {
        let s = v.add_spec(w);
        let x = v@ + w@;
        let m = T::modulus();
        let lo = T::lowest();
        Self::lemma_from_raw(x);
        Self::lemma_from_raw(s@ - w@);
        T::lemma_shape();
        lemma_reduce_sub_right(x, w@, lo, m);
        v.0.lemma_range();
        lemma_reduce_in_range(v@, lo, m);
        Self::lemma_view_injective(s.sub_spec(w), v);
    }

    /// Adding or subtracting a whole number `t` is adding or subtracting
    /// `new(t)`.
    pub proof fn lemma_scalar_add_sub(v: Self, t: T)
        ensures
            v.add_spec(t) == v.add_spec(Self::spec_new(t)),
            v.sub_spec(t) == v.sub_spec(Self::spec_new(t)),
    {
        Self::lemma_from_raw(t.value() * pow2(Q as nat));
    }
}

impl<T: Widen, const Q: usize> Fyx<T, Q> {
    /// Multiplying or dividing by a whole number `t` is multiplying or
    /// dividing by `new(t)`.
    pub proof fn lemma_scalar_mul_div(v: Self, t: T)
        ensures
            v.mul_spec(t) == v.mul_spec(Self::spec_new(t)),
            v.div_spec(t) == v.div_spec(Self::spec_new(t)),
            v.div_req(t) == v.div_req(Self::spec_new(t)),
    {
        Self::lemma_from_raw(t.value() * pow2(Q as nat));
    }
}

} // verus!
