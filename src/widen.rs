use crate::arith::lemma_reduce_in_range;
use crate::integer::{reduce, Integer};
use vstd::arithmetic::div_mod::lemma_mod_multiples_vanish;
use vstd::arithmetic::power2::lemma2_to64;
use vstd::prelude::*;

verus! {

/// An integer type with a designated type of twice its width and the same
/// signedness, into which it converts without loss.  The 128-bit types
/// have none.
pub trait Widen: Integer {
    type Assoc: Integer + Shrink<Assoc = Self>;

    /// `self` converted to the wider type.
    spec fn widened(self) -> Self::Assoc;

    /// The wider type has twice the bits and the same signedness: its
    /// range is the square of this one's, placed likewise around zero.
    proof fn lemma_room()
        ensures
            Self::Assoc::width() == 2 * Self::width(),
            Self::Assoc::modulus() == Self::modulus() * Self::modulus(),
            Self::Assoc::lowest() == Self::lowest() * Self::modulus(),
    ;

    /// Widening keeps the value.
    proof fn lemma_widened(self)
        ensures
            self.widened().value() == self.value(),
    ;

    /// The same value in the wider type.
    fn widen(self) -> (r: Self::Assoc)
        ensures
            r == self.widened(),
            r.value() == self.value(),
    ;
}

/// An integer type with a designated type of half its width and the same
/// signedness, into which it converts by keeping the low bits.
pub trait Shrink: Integer {
    type Assoc: Integer;

    /// `self` converted to the narrower type.
    spec fn shrunk(self) -> Self::Assoc;

    /// Shrinking keeps the value modulo the narrower type's modulus.
    proof fn lemma_shrunk(self)
        ensures
            self.shrunk().value() == reduce(
                self.value(),
                Self::Assoc::lowest(),
                Self::Assoc::modulus(),
            ),
    ;

    /// The low bits of `self`, read in the narrower type.  Values out of
    /// the narrower range are truncated, with no sign of it.
    fn shrink(self) -> (r: Self::Assoc)
        ensures
            r == self.shrunk(),
            r.value() == reduce(self.value(), Self::Assoc::lowest(), Self::Assoc::modulus()),
    ;
}

/// Widening and then shrinking gives back the value one started from.
pub proof fn lemma_shrink_widen<T: Widen>(x: T)
    ensures
        x.widened().shrunk() == x,
{
    let w = x.widened();
    x.lemma_widened();
    w.lemma_shrunk();
    x.lemma_range();
    T::lemma_shape();
    lemma_reduce_in_range(x.value(), T::lowest(), T::modulus());
    w.shrunk().lemma_injective(x);
}

impl Widen for u8 {
    type Assoc = u16;

    open spec fn widened(self) -> u16 {
        self as u16
    }

    proof fn lemma_room() {
        lemma2_to64();
    }

    proof fn lemma_widened(self) {
    }

    fn widen(self) -> (r: u16) {
        self as u16
    }
}

impl Shrink for u16 {
    type Assoc = u8;

    open spec fn shrunk(self) -> u8 {
        self as u8
    }

    proof fn lemma_shrunk(self) {
        let y = self;
        assert(y as u8 == y % 0x100) by (bit_vector);
    }

    fn shrink(self) -> (r: u8) {
        proof {
            self.lemma_shrunk();
        }
        self as u8
    }
}

impl Widen for u16 {
    type Assoc = u32;

    open spec fn widened(self) -> u32 {
        self as u32
    }

    proof fn lemma_room() {
        lemma2_to64();
    }

    proof fn lemma_widened(self) {
    }

    fn widen(self) -> (r: u32) {
        self as u32
    }
}

impl Shrink for u32 {
    type Assoc = u16;

    open spec fn shrunk(self) -> u16 {
        self as u16
    }

    proof fn lemma_shrunk(self) {
        let y = self;
        assert(y as u16 == y % 0x1_0000) by (bit_vector);
    }

    fn shrink(self) -> (r: u16) {
        proof {
            self.lemma_shrunk();
        }
        self as u16
    }
}

impl Widen for u32 {
    type Assoc = u64;

    open spec fn widened(self) -> u64 {
        self as u64
    }

    proof fn lemma_room() {
        lemma2_to64();
    }

    proof fn lemma_widened(self) {
    }

    fn widen(self) -> (r: u64) {
        self as u64
    }
}

impl Shrink for u64 {
    type Assoc = u32;

    open spec fn shrunk(self) -> u32 {
        self as u32
    }

    proof fn lemma_shrunk(self) {
        let y = self;
        assert(y as u32 == y % 0x1_0000_0000) by (bit_vector);
    }

    fn shrink(self) -> (r: u32) {
        proof {
            self.lemma_shrunk();
        }
        self as u32
    }
}

impl Widen for u64 {
    type Assoc = u128;

    open spec fn widened(self) -> u128 {
        self as u128
    }

    proof fn lemma_room() {
        lemma2_to64();
    }

    proof fn lemma_widened(self) {
    }

    fn widen(self) -> (r: u128) {
        self as u128
    }
}

impl Shrink for u128 {
    type Assoc = u64;

    open spec fn shrunk(self) -> u64 {
        self as u64
    }

    proof fn lemma_shrunk(self) {
        let y = self;
        assert(y as u64 == y % 0x1_0000_0000_0000_0000) by (bit_vector);
    }

    fn shrink(self) -> (r: u64) {
        proof {
            self.lemma_shrunk();
        }
        self as u64
    }
}

impl Widen for i8 {
    type Assoc = i16;

    open spec fn widened(self) -> i16 {
        self as i16
    }

    proof fn lemma_room() {
        lemma2_to64();
    }

    proof fn lemma_widened(self) {
    }

    fn widen(self) -> (r: i16) {
        self as i16
    }
}

impl Shrink for i16 {
    type Assoc = i8;

    open spec fn shrunk(self) -> i8 {
        self as i8
    }

    proof fn lemma_shrunk(self) {
        let y = self;
        assert(y as i8 == (y + 0x8080) % 0x100 - 0x80) by (bit_vector);
        lemma_mod_multiples_vanish(0x80, y + 0x80, 0x100);
    }

    fn shrink(self) -> (r: i8) {
        proof {
            self.lemma_shrunk();
        }
        self as i8
    }
}

impl Widen for i16 {
    type Assoc = i32;

    open spec fn widened(self) -> i32 {
        self as i32
    }

    proof fn lemma_room() {
        lemma2_to64();
    }

    proof fn lemma_widened(self) {
    }

    fn widen(self) -> (r: i32) {
        self as i32
    }
}

impl Shrink for i32 {
    type Assoc = i16;

    open spec fn shrunk(self) -> i16 {
        self as i16
    }

    proof fn lemma_shrunk(self) {
        let y = self;
        assert(y as i16 == (y + 0x8000_8000) % 0x1_0000 - 0x8000) by (bit_vector);
        lemma_mod_multiples_vanish(0x8000, y + 0x8000, 0x1_0000);
    }

    fn shrink(self) -> (r: i16) {
        proof {
            self.lemma_shrunk();
        }
        self as i16
    }
}

impl Widen for i32 {
    type Assoc = i64;

    open spec fn widened(self) -> i64 {
        self as i64
    }

    proof fn lemma_room() {
        lemma2_to64();
    }

    proof fn lemma_widened(self) {
    }

    fn widen(self) -> (r: i64) {
        self as i64
    }
}

impl Shrink for i64 {
    type Assoc = i32;

    open spec fn shrunk(self) -> i32 {
        self as i32
    }

    proof fn lemma_shrunk(self) {
        let y = self;
        assert(y as i32 == (y + 0x8000_0000_8000_0000) % 0x1_0000_0000 - 0x8000_0000) by (bit_vector);
        lemma_mod_multiples_vanish(0x8000_0000, y + 0x8000_0000, 0x1_0000_0000);
    }

    fn shrink(self) -> (r: i32) {
        proof {
            self.lemma_shrunk();
        }
        self as i32
    }
}

impl Widen for i64 {
    type Assoc = i128;

    open spec fn widened(self) -> i128 {
        self as i128
    }

    proof fn lemma_room() {
        lemma2_to64();
    }

    proof fn lemma_widened(self) {
    }

    fn widen(self) -> (r: i128) {
        self as i128
    }
}

impl Shrink for i128 {
    type Assoc = i64;

    open spec fn shrunk(self) -> i64 {
        self as i64
    }

    proof fn lemma_shrunk(self) {
        let y = self;
        assert(y as i64 == (y + 0x8000_0000_0000_0000_8000_0000_0000_0000) % 0x1_0000_0000_0000_0000 - 0x8000_0000_0000_0000) by (bit_vector);
        lemma_mod_multiples_vanish(0x8000_0000_0000_0000, y + 0x8000_0000_0000_0000, 0x1_0000_0000_0000_0000);
    }

    fn shrink(self) -> (r: i64) {
        proof {
            self.lemma_shrunk();
        }
        self as i64
    }
}

} // verus!
