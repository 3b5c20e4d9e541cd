//! The ten machine integer types as representations.
use crate::arith::{
    lemma_half, lemma_reduce_range, lemma_reduce_shift, lemma_trunc_div_euclid,
};
use crate::integer::{reduce, Integer};
use vstd::arithmetic::power2::{lemma2_to64, lemma_pow2_adds};
use vstd::prelude::*;

verus! {

impl Integer for u8 {
    open spec fn value(self) -> int {
        self as int
    }

    open spec fn width() -> nat {
        8
    }

    open spec fn lowest() -> int {
        0
    }

    open spec fn modulus() -> int {
        0x100
    }

    open spec fn from_int(x: int) -> u8 {
        reduce(x, 0, 0x100) as u8
    }

    open spec fn shl_value(self, s: u32) -> int {
        (self << s) as int
    }

    open spec fn shr_value(self, s: u32) -> int {
        (self >> s) as int
    }

    proof fn lemma_shape() {
        lemma2_to64();
    }

    proof fn lemma_range(self) {
    }

    proof fn lemma_from_int(x: int) {
        lemma_reduce_range(x, 0, 0x100);
    }

    proof fn lemma_injective(self, other: Self) {
    }

    proof fn lemma_shl_step(self, s: u32) {
        let x = self;
        assert(x << 0u32 == x && (s > 0 ==> (x << s) == ((x << ((s - 1) as u32)) * 2) % 0x100)) by (bit_vector)
            requires
                s < 8,
        ;
        if s > 0 {
        }
    }

    proof fn lemma_shr_step(self, s: u32) {
        let x = self;
        let y = x >> ((s - 1) as u32);
        assert(x >> 0u32 == x && (s > 0 ==> x >> s == y >> 1u32) && (y >> 1u32) * 2 <= y < (y
            >> 1u32) * 2 + 2) by (bit_vector)
            requires
                s < 8,
                y == x >> ((s - 1) as u32),
        ;
        if s > 0 {
            lemma_half(y as int, (y >> 1u32) as int);
        }
    }

    fn add_wrapping(self, other: u8) -> (r: u8) {
        proof {
            lemma_reduce_shift(self + other, 0, 0x100);
        }
        self.wrapping_add(other)
    }

    fn sub_wrapping(self, other: u8) -> (r: u8) {
        proof {
            lemma_reduce_shift(self - other, 0, 0x100);
        }
        self.wrapping_sub(other)
    }

    fn shl(self, s: u32) -> (r: u8) {
        self << s
    }

    fn shr(self, s: u32) -> (r: u8) {
        self >> s
    }

    fn mul_exact(self, other: u8) -> (r: u8) {
        self * other
    }

    fn div_trunc(self, other: u8) -> (r: u8) {
        self / other
    }
}

impl Integer for u16 {
    open spec fn value(self) -> int {
        self as int
    }

    open spec fn width() -> nat {
        16
    }

    open spec fn lowest() -> int {
        0
    }

    open spec fn modulus() -> int {
        0x1_0000
    }

    open spec fn from_int(x: int) -> u16 {
        reduce(x, 0, 0x1_0000) as u16
    }

    open spec fn shl_value(self, s: u32) -> int {
        (self << s) as int
    }

    open spec fn shr_value(self, s: u32) -> int {
        (self >> s) as int
    }

    proof fn lemma_shape() {
        lemma2_to64();
    }

    proof fn lemma_range(self) {
    }

    proof fn lemma_from_int(x: int) {
        lemma_reduce_range(x, 0, 0x1_0000);
    }

    proof fn lemma_injective(self, other: Self) {
    }

    proof fn lemma_shl_step(self, s: u32) {
        let x = self;
        assert(x << 0u32 == x && (s > 0 ==> (x << s) == ((x << ((s - 1) as u32)) * 2) % 0x1_0000)) by (bit_vector)
            requires
                s < 16,
        ;
        if s > 0 {
        }
    }

    proof fn lemma_shr_step(self, s: u32) {
        let x = self;
        let y = x >> ((s - 1) as u32);
        assert(x >> 0u32 == x && (s > 0 ==> x >> s == y >> 1u32) && (y >> 1u32) * 2 <= y < (y
            >> 1u32) * 2 + 2) by (bit_vector)
            requires
                s < 16,
                y == x >> ((s - 1) as u32),
        ;
        if s > 0 {
            lemma_half(y as int, (y >> 1u32) as int);
        }
    }

    fn add_wrapping(self, other: u16) -> (r: u16) {
        proof {
            lemma_reduce_shift(self + other, 0, 0x1_0000);
        }
        self.wrapping_add(other)
    }

    fn sub_wrapping(self, other: u16) -> (r: u16) {
        proof {
            lemma_reduce_shift(self - other, 0, 0x1_0000);
        }
        self.wrapping_sub(other)
    }

    fn shl(self, s: u32) -> (r: u16) {
        self << s
    }

    fn shr(self, s: u32) -> (r: u16) {
        self >> s
    }

    fn mul_exact(self, other: u16) -> (r: u16) {
        self * other
    }

    fn div_trunc(self, other: u16) -> (r: u16) {
        self / other
    }
}

impl Integer for u32 {
    open spec fn value(self) -> int {
        self as int
    }

    open spec fn width() -> nat {
        32
    }

    open spec fn lowest() -> int {
        0
    }

    open spec fn modulus() -> int {
        0x1_0000_0000
    }

    open spec fn from_int(x: int) -> u32 {
        reduce(x, 0, 0x1_0000_0000) as u32
    }

    open spec fn shl_value(self, s: u32) -> int {
        (self << s) as int
    }

    open spec fn shr_value(self, s: u32) -> int {
        (self >> s) as int
    }

    proof fn lemma_shape() {
        lemma2_to64();
    }

    proof fn lemma_range(self) {
    }

    proof fn lemma_from_int(x: int) {
        lemma_reduce_range(x, 0, 0x1_0000_0000);
    }

    proof fn lemma_injective(self, other: Self) {
    }

    proof fn lemma_shl_step(self, s: u32) {
        let x = self;
        assert(x << 0u32 == x && (s > 0 ==> (x << s) == ((x << ((s - 1) as u32)) * 2) % 0x1_0000_0000)) by (bit_vector)
            requires
                s < 32,
        ;
        if s > 0 {
        }
    }

    proof fn lemma_shr_step(self, s: u32) {
        let x = self;
        let y = x >> ((s - 1) as u32);
        assert(x >> 0u32 == x && (s > 0 ==> x >> s == y >> 1u32) && (y >> 1u32) * 2 <= y < (y
            >> 1u32) * 2 + 2) by (bit_vector)
            requires
                s < 32,
                y == x >> ((s - 1) as u32),
        ;
        if s > 0 {
            lemma_half(y as int, (y >> 1u32) as int);
        }
    }

    fn add_wrapping(self, other: u32) -> (r: u32) {
        proof {
            lemma_reduce_shift(self + other, 0, 0x1_0000_0000);
        }
        self.wrapping_add(other)
    }

    fn sub_wrapping(self, other: u32) -> (r: u32) {
        proof {
            lemma_reduce_shift(self - other, 0, 0x1_0000_0000);
        }
        self.wrapping_sub(other)
    }

    fn shl(self, s: u32) -> (r: u32) {
        self << s
    }

    fn shr(self, s: u32) -> (r: u32) {
        self >> s
    }

    fn mul_exact(self, other: u32) -> (r: u32) {
        self * other
    }

    fn div_trunc(self, other: u32) -> (r: u32) {
        self / other
    }
}

impl Integer for u64 {
    open spec fn value(self) -> int {
        self as int
    }

    open spec fn width() -> nat {
        64
    }

    open spec fn lowest() -> int {
        0
    }

    open spec fn modulus() -> int {
        0x1_0000_0000_0000_0000
    }

    open spec fn from_int(x: int) -> u64 {
        reduce(x, 0, 0x1_0000_0000_0000_0000) as u64
    }

    open spec fn shl_value(self, s: u32) -> int {
        (self << s) as int
    }

    open spec fn shr_value(self, s: u32) -> int {
        (self >> s) as int
    }

    proof fn lemma_shape() {
        lemma2_to64();
    }

    proof fn lemma_range(self) {
    }

    proof fn lemma_from_int(x: int) {
        lemma_reduce_range(x, 0, 0x1_0000_0000_0000_0000);
    }

    proof fn lemma_injective(self, other: Self) {
    }

    proof fn lemma_shl_step(self, s: u32) {
        let x = self;
        assert(x << 0u32 == x && (s > 0 ==> (x << s) == ((x << ((s - 1) as u32)) * 2) % 0x1_0000_0000_0000_0000)) by (bit_vector)
            requires
                s < 64,
        ;
        if s > 0 {
        }
    }

    proof fn lemma_shr_step(self, s: u32) {
        let x = self;
        let y = x >> ((s - 1) as u32);
        assert(x >> 0u32 == x && (s > 0 ==> x >> s == y >> 1u32) && (y >> 1u32) * 2 <= y < (y
            >> 1u32) * 2 + 2) by (bit_vector)
            requires
                s < 64,
                y == x >> ((s - 1) as u32),
        ;
        if s > 0 {
            lemma_half(y as int, (y >> 1u32) as int);
        }
    }

    fn add_wrapping(self, other: u64) -> (r: u64) {
        proof {
            lemma_reduce_shift(self + other, 0, 0x1_0000_0000_0000_0000);
        }
        self.wrapping_add(other)
    }

    fn sub_wrapping(self, other: u64) -> (r: u64) {
        proof {
            lemma_reduce_shift(self - other, 0, 0x1_0000_0000_0000_0000);
        }
        self.wrapping_sub(other)
    }

    fn shl(self, s: u32) -> (r: u64) {
        self << s
    }

    fn shr(self, s: u32) -> (r: u64) {
        self >> s
    }

    fn mul_exact(self, other: u64) -> (r: u64) {
        self * other
    }

    fn div_trunc(self, other: u64) -> (r: u64) {
        self / other
    }
}

impl Integer for u128 {
    open spec fn value(self) -> int {
        self as int
    }

    open spec fn width() -> nat {
        128
    }

    open spec fn lowest() -> int {
        0
    }

    open spec fn modulus() -> int {
        ((0x1_0000_0000_0000_0000 * 0x1_0000_0000_0000_0000) as int)
    }

    open spec fn from_int(x: int) -> u128 {
        reduce(x, 0, ((0x1_0000_0000_0000_0000 * 0x1_0000_0000_0000_0000) as int)) as u128
    }

    open spec fn shl_value(self, s: u32) -> int {
        (self << s) as int
    }

    open spec fn shr_value(self, s: u32) -> int {
        (self >> s) as int
    }

    proof fn lemma_shape() {
        lemma2_to64();
        lemma_pow2_adds(64, 64);
    }

    proof fn lemma_range(self) {
    }

    proof fn lemma_from_int(x: int) {
        lemma_reduce_range(x, 0, ((0x1_0000_0000_0000_0000 * 0x1_0000_0000_0000_0000) as int));
    }

    proof fn lemma_injective(self, other: Self) {
    }

    proof fn lemma_shl_step(self, s: u32) {
        let x = self;
        assert(x << 0u32 == x && (s > 0 ==> (x << s) == ((x << ((s - 1) as u32)) * 2) % ((0x1_0000_0000_0000_0000 * 0x1_0000_0000_0000_0000) as int))) by (bit_vector)
            requires
                s < 128,
        ;
        if s > 0 {
        }
    }

    proof fn lemma_shr_step(self, s: u32) {
        let x = self;
        let y = x >> ((s - 1) as u32);
        assert(x >> 0u32 == x && (s > 0 ==> x >> s == y >> 1u32) && (y >> 1u32) * 2 <= y < (y
            >> 1u32) * 2 + 2) by (bit_vector)
            requires
                s < 128,
                y == x >> ((s - 1) as u32),
        ;
        if s > 0 {
            lemma_half(y as int, (y >> 1u32) as int);
        }
    }

    fn add_wrapping(self, other: u128) -> (r: u128) {
        proof {
            lemma_reduce_shift(self + other, 0, ((0x1_0000_0000_0000_0000 * 0x1_0000_0000_0000_0000) as int));
        }
        self.wrapping_add(other)
    }

    fn sub_wrapping(self, other: u128) -> (r: u128) {
        proof {
            lemma_reduce_shift(self - other, 0, ((0x1_0000_0000_0000_0000 * 0x1_0000_0000_0000_0000) as int));
        }
        self.wrapping_sub(other)
    }

    fn shl(self, s: u32) -> (r: u128) {
        self << s
    }

    fn shr(self, s: u32) -> (r: u128) {
        self >> s
    }

    fn mul_exact(self, other: u128) -> (r: u128) {
        self * other
    }

    fn div_trunc(self, other: u128) -> (r: u128) {
        self / other
    }
}

impl Integer for i8 {
    open spec fn value(self) -> int {
        self as int
    }

    open spec fn width() -> nat {
        8
    }

    open spec fn lowest() -> int {
        -0x80
    }

    open spec fn modulus() -> int {
        0x100
    }

    open spec fn from_int(x: int) -> i8 {
        reduce(x, -0x80, 0x100) as i8
    }

    open spec fn shl_value(self, s: u32) -> int {
        (self << s) as int
    }

    open spec fn shr_value(self, s: u32) -> int {
        (self >> s) as int
    }

    proof fn lemma_shape() {
        lemma2_to64();
    }

    proof fn lemma_range(self) {
    }

    proof fn lemma_from_int(x: int) {
        lemma_reduce_range(x, -0x80, 0x100);
    }

    proof fn lemma_injective(self, other: Self) {
    }

    proof fn lemma_shl_step(self, s: u32) {
        let x = self;
        assert(x << 0u32 == x && (s > 0 ==> (x << s) == ((x << ((s - 1) as u32)) * 2 + 0x180) % 0x100 - 0x80)) by (bit_vector)
            requires
                s < 8,
        ;
        if s > 0 {
            lemma_reduce_shift(2 * self.shl_value((s - 1) as u32), -0x80, 0x100);
        }
    }

    proof fn lemma_shr_step(self, s: u32) {
        let x = self;
        let y = x >> ((s - 1) as u32);
        assert(x >> 0u32 == x && (s > 0 ==> x >> s == y >> 1u32) && (y >> 1u32) * 2 <= y < (y
            >> 1u32) * 2 + 2) by (bit_vector)
            requires
                s < 8,
                y == x >> ((s - 1) as u32),
        ;
        if s > 0 {
            lemma_half(y as int, (y >> 1u32) as int);
        }
    }

    fn add_wrapping(self, other: i8) -> (r: i8) {
        proof {
            lemma_reduce_shift(self + other, -0x80, 0x100);
        }
        self.wrapping_add(other)
    }

    fn sub_wrapping(self, other: i8) -> (r: i8) {
        proof {
            lemma_reduce_shift(self - other, -0x80, 0x100);
        }
        self.wrapping_sub(other)
    }

    fn shl(self, s: u32) -> (r: i8) {
        self << s
    }

    fn shr(self, s: u32) -> (r: i8) {
        self >> s
    }

    fn mul_exact(self, other: i8) -> (r: i8) {
        self * other
    }

    fn div_trunc(self, other: i8) -> (r: i8) {
        proof {
            lemma_trunc_div_euclid(self as int, other as int);
        }
        self / other
    }
}

impl Integer for i16 {
    open spec fn value(self) -> int {
        self as int
    }

    open spec fn width() -> nat {
        16
    }

    open spec fn lowest() -> int {
        -0x8000
    }

    open spec fn modulus() -> int {
        0x1_0000
    }

    open spec fn from_int(x: int) -> i16 {
        reduce(x, -0x8000, 0x1_0000) as i16
    }

    open spec fn shl_value(self, s: u32) -> int {
        (self << s) as int
    }

    open spec fn shr_value(self, s: u32) -> int {
        (self >> s) as int
    }

    proof fn lemma_shape() {
        lemma2_to64();
    }

    proof fn lemma_range(self) {
    }

    proof fn lemma_from_int(x: int) {
        lemma_reduce_range(x, -0x8000, 0x1_0000);
    }

    proof fn lemma_injective(self, other: Self) {
    }

    proof fn lemma_shl_step(self, s: u32) {
        let x = self;
        assert(x << 0u32 == x && (s > 0 ==> (x << s) == ((x << ((s - 1) as u32)) * 2 + 0x1_8000) % 0x1_0000 - 0x8000)) by (bit_vector)
            requires
                s < 16,
        ;
        if s > 0 {
            lemma_reduce_shift(2 * self.shl_value((s - 1) as u32), -0x8000, 0x1_0000);
        }
    }

    proof fn lemma_shr_step(self, s: u32) {
        let x = self;
        let y = x >> ((s - 1) as u32);
        assert(x >> 0u32 == x && (s > 0 ==> x >> s == y >> 1u32) && (y >> 1u32) * 2 <= y < (y
            >> 1u32) * 2 + 2) by (bit_vector)
            requires
                s < 16,
                y == x >> ((s - 1) as u32),
        ;
        if s > 0 {
            lemma_half(y as int, (y >> 1u32) as int);
        }
    }

    fn add_wrapping(self, other: i16) -> (r: i16) {
        proof {
            lemma_reduce_shift(self + other, -0x8000, 0x1_0000);
        }
        self.wrapping_add(other)
    }

    fn sub_wrapping(self, other: i16) -> (r: i16) {
        proof {
            lemma_reduce_shift(self - other, -0x8000, 0x1_0000);
        }
        self.wrapping_sub(other)
    }

    fn shl(self, s: u32) -> (r: i16) {
        self << s
    }

    fn shr(self, s: u32) -> (r: i16) {
        self >> s
    }

    fn mul_exact(self, other: i16) -> (r: i16) {
        self * other
    }

    fn div_trunc(self, other: i16) -> (r: i16) {
        proof {
            lemma_trunc_div_euclid(self as int, other as int);
        }
        self / other
    }
}

impl Integer for i32 {
    open spec fn value(self) -> int {
        self as int
    }

    open spec fn width() -> nat {
        32
    }

    open spec fn lowest() -> int {
        -0x8000_0000
    }

    open spec fn modulus() -> int {
        0x1_0000_0000
    }

    open spec fn from_int(x: int) -> i32 {
        reduce(x, -0x8000_0000, 0x1_0000_0000) as i32
    }

    open spec fn shl_value(self, s: u32) -> int {
        (self << s) as int
    }

    open spec fn shr_value(self, s: u32) -> int {
        (self >> s) as int
    }

    proof fn lemma_shape() {
        lemma2_to64();
    }

    proof fn lemma_range(self) {
    }

    proof fn lemma_from_int(x: int) {
        lemma_reduce_range(x, -0x8000_0000, 0x1_0000_0000);
    }

    proof fn lemma_injective(self, other: Self) {
    }

    proof fn lemma_shl_step(self, s: u32) {
        let x = self;
        assert(x << 0u32 == x && (s > 0 ==> (x << s) == ((x << ((s - 1) as u32)) * 2 + 0x1_8000_0000) % 0x1_0000_0000 - 0x8000_0000)) by (bit_vector)
            requires
                s < 32,
        ;
        if s > 0 {
            lemma_reduce_shift(2 * self.shl_value((s - 1) as u32), -0x8000_0000, 0x1_0000_0000);
        }
    }

    proof fn lemma_shr_step(self, s: u32) {
        let x = self;
        let y = x >> ((s - 1) as u32);
        assert(x >> 0u32 == x && (s > 0 ==> x >> s == y >> 1u32) && (y >> 1u32) * 2 <= y < (y
            >> 1u32) * 2 + 2) by (bit_vector)
            requires
                s < 32,
                y == x >> ((s - 1) as u32),
        ;
        if s > 0 {
            lemma_half(y as int, (y >> 1u32) as int);
        }
    }

    fn add_wrapping(self, other: i32) -> (r: i32) {
        proof {
            lemma_reduce_shift(self + other, -0x8000_0000, 0x1_0000_0000);
        }
        self.wrapping_add(other)
    }

    fn sub_wrapping(self, other: i32) -> (r: i32) {
        proof {
            lemma_reduce_shift(self - other, -0x8000_0000, 0x1_0000_0000);
        }
        self.wrapping_sub(other)
    }

    fn shl(self, s: u32) -> (r: i32) {
        self << s
    }

    fn shr(self, s: u32) -> (r: i32) {
        self >> s
    }

    fn mul_exact(self, other: i32) -> (r: i32) {
        self * other
    }

    fn div_trunc(self, other: i32) -> (r: i32) {
        proof {
            lemma_trunc_div_euclid(self as int, other as int);
        }
        self / other
    }
}

impl Integer for i64 {
    open spec fn value(self) -> int {
        self as int
    }

    open spec fn width() -> nat {
        64
    }

    open spec fn lowest() -> int {
        -0x8000_0000_0000_0000
    }

    open spec fn modulus() -> int {
        0x1_0000_0000_0000_0000
    }

    open spec fn from_int(x: int) -> i64 {
        reduce(x, -0x8000_0000_0000_0000, 0x1_0000_0000_0000_0000) as i64
    }

    open spec fn shl_value(self, s: u32) -> int {
        (self << s) as int
    }

    open spec fn shr_value(self, s: u32) -> int {
        (self >> s) as int
    }

    proof fn lemma_shape() {
        lemma2_to64();
    }

    proof fn lemma_range(self) {
    }

    proof fn lemma_from_int(x: int) {
        lemma_reduce_range(x, -0x8000_0000_0000_0000, 0x1_0000_0000_0000_0000);
    }

    proof fn lemma_injective(self, other: Self) {
    }

    proof fn lemma_shl_step(self, s: u32) {
        let x = self;
        assert(x << 0u32 == x && (s > 0 ==> (x << s) == ((x << ((s - 1) as u32)) * 2 + 0x1_8000_0000_0000_0000) % 0x1_0000_0000_0000_0000 - 0x8000_0000_0000_0000)) by (bit_vector)
            requires
                s < 64,
        ;
        if s > 0 {
            lemma_reduce_shift(2 * self.shl_value((s - 1) as u32), -0x8000_0000_0000_0000, 0x1_0000_0000_0000_0000);
        }
    }

    proof fn lemma_shr_step(self, s: u32) {
        let x = self;
        let y = x >> ((s - 1) as u32);
        assert(x >> 0u32 == x && (s > 0 ==> x >> s == y >> 1u32) && (y >> 1u32) * 2 <= y < (y
            >> 1u32) * 2 + 2) by (bit_vector)
            requires
                s < 64,
                y == x >> ((s - 1) as u32),
        ;
        if s > 0 {
            lemma_half(y as int, (y >> 1u32) as int);
        }
    }

    fn add_wrapping(self, other: i64) -> (r: i64) {
        proof {
            lemma_reduce_shift(self + other, -0x8000_0000_0000_0000, 0x1_0000_0000_0000_0000);
        }
        self.wrapping_add(other)
    }

    fn sub_wrapping(self, other: i64) -> (r: i64) {
        proof {
            lemma_reduce_shift(self - other, -0x8000_0000_0000_0000, 0x1_0000_0000_0000_0000);
        }
        self.wrapping_sub(other)
    }

    fn shl(self, s: u32) -> (r: i64) {
        self << s
    }

    fn shr(self, s: u32) -> (r: i64) {
        self >> s
    }

    fn mul_exact(self, other: i64) -> (r: i64) {
        self * other
    }

    fn div_trunc(self, other: i64) -> (r: i64) {
        proof {
            lemma_trunc_div_euclid(self as int, other as int);
        }
        self / other
    }
}

impl Integer for i128 {
    open spec fn value(self) -> int {
        self as int
    }

    open spec fn width() -> nat {
        128
    }

    open spec fn lowest() -> int {
        -0x8000_0000_0000_0000_0000_0000_0000_0000
    }

    open spec fn modulus() -> int {
        ((0x1_0000_0000_0000_0000 * 0x1_0000_0000_0000_0000) as int)
    }

    open spec fn from_int(x: int) -> i128 {
        reduce(x, -0x8000_0000_0000_0000_0000_0000_0000_0000, ((0x1_0000_0000_0000_0000 * 0x1_0000_0000_0000_0000) as int)) as i128
    }

    open spec fn shl_value(self, s: u32) -> int {
        (self << s) as int
    }

    open spec fn shr_value(self, s: u32) -> int {
        (self >> s) as int
    }

    proof fn lemma_shape() {
        lemma2_to64();
        lemma_pow2_adds(64, 64);
    }

    proof fn lemma_range(self) {
    }

    proof fn lemma_from_int(x: int) {
        lemma_reduce_range(x, -0x8000_0000_0000_0000_0000_0000_0000_0000, ((0x1_0000_0000_0000_0000 * 0x1_0000_0000_0000_0000) as int));
    }

    proof fn lemma_injective(self, other: Self) {
    }

    proof fn lemma_shl_step(self, s: u32) {
        let x = self;
        assert(x << 0u32 == x && (s > 0 ==> (x << s) == ((x << ((s - 1) as u32)) * 2 + ((0x1_8000_0000_0000_0000 * 0x1_0000_0000_0000_0000) as int)) % ((0x1_0000_0000_0000_0000 * 0x1_0000_0000_0000_0000) as int) - 0x8000_0000_0000_0000_0000_0000_0000_0000)) by (bit_vector)
            requires
                s < 128,
        ;
        if s > 0 {
            lemma_reduce_shift(2 * self.shl_value((s - 1) as u32), -0x8000_0000_0000_0000_0000_0000_0000_0000, ((0x1_0000_0000_0000_0000 * 0x1_0000_0000_0000_0000) as int));
        }
    }

    proof fn lemma_shr_step(self, s: u32) {
        let x = self;
        let y = x >> ((s - 1) as u32);
        assert(x >> 0u32 == x && (s > 0 ==> x >> s == y >> 1u32) && (y >> 1u32) * 2 <= y < (y
            >> 1u32) * 2 + 2) by (bit_vector)
            requires
                s < 128,
                y == x >> ((s - 1) as u32),
        ;
        if s > 0 {
            lemma_half(y as int, (y >> 1u32) as int);
        }
    }

    fn add_wrapping(self, other: i128) -> (r: i128) {
        proof {
            lemma_reduce_shift(self + other, -0x8000_0000_0000_0000_0000_0000_0000_0000, ((0x1_0000_0000_0000_0000 * 0x1_0000_0000_0000_0000) as int));
        }
        self.wrapping_add(other)
    }

    fn sub_wrapping(self, other: i128) -> (r: i128) {
        proof {
            lemma_reduce_shift(self - other, -0x8000_0000_0000_0000_0000_0000_0000_0000, ((0x1_0000_0000_0000_0000 * 0x1_0000_0000_0000_0000) as int));
        }
        self.wrapping_sub(other)
    }

    fn shl(self, s: u32) -> (r: i128) {
        self << s
    }

    fn shr(self, s: u32) -> (r: i128) {
        self >> s
    }

    fn mul_exact(self, other: i128) -> (r: i128) {
        self * other
    }

    fn div_trunc(self, other: i128) -> (r: i128) {
        proof {
            lemma_trunc_div_euclid(self as int, other as int);
        }
        self / other
    }
}

} // verus!
