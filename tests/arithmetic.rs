use fyx::{Fyx, Integer, Shrink, Widen};

#[test]
fn new_shifts_left_by_q() {
    assert_eq!(Fyx::<i32, 8>::new(3).raw(), 768);
    assert_eq!(Fyx::<i8, 4>::new(-3).raw(), -48);
    assert_eq!(Fyx::<u64, 0>::new(7).raw(), 7);
}

#[test]
fn new_truncates_bits_shifted_out() {
    assert_eq!(Fyx::<u8, 4>::new(20).raw(), 64);
    assert_eq!(Fyx::<i8, 4>::new(8).raw(), -128);
}

#[test]
fn multiply_removes_both_scale_factors() {
    let r = Fyx::<i32, 8>::new(3) * Fyx::<i32, 8>::new(2);
    assert_eq!(r.raw(), 6);
}

#[test]
fn divide_cancels_the_scale() {
    let r = Fyx::<i32, 8>::new(6) / Fyx::<i32, 8>::new(2);
    assert_eq!(r.raw(), 3);
}

#[test]
fn multiply_rounds_toward_negative_infinity() {
    let six = Fyx::<i32, 8>::new(3) * Fyx::<i32, 8>::new(2);
    let minus_six = Fyx::<i32, 8>::new(0) - six;
    assert_eq!(minus_six.raw(), -6);
    assert_eq!((minus_six * Fyx::<i32, 8>::new(1)).raw(), -1);
    assert_eq!((six * Fyx::<i32, 8>::new(1)).raw(), 0);
}

#[test]
fn divide_rounds_toward_zero() {
    let six = Fyx::<i32, 8>::new(3) * Fyx::<i32, 8>::new(2);
    let minus_six = Fyx::<i32, 8>::new(0) - six;
    assert_eq!((minus_six / Fyx::<i32, 8>::new(4)).raw(), 0);
    assert_eq!((Fyx::<i32, 8>::new(-7) / Fyx::<i32, 8>::new(2)).raw(), -3);
    assert_eq!((Fyx::<i32, 8>::new(7) / Fyx::<i32, 8>::new(-2)).raw(), -3);
}

#[test]
fn multiply_unsigned_uses_the_wide_product() {
    let a = Fyx::<u8, 4>::new(15);
    assert_eq!(a.raw(), 240);
    assert_eq!((a * a).raw(), 225);
}

#[test]
fn multiply_truncates_when_narrowing() {
    let a = Fyx::<u8, 0>::new(200);
    assert_eq!((a * Fyx::<u8, 0>::new(2)).raw(), 144);
}

#[test]
fn divide_truncates_when_narrowing() {
    let r = Fyx::<i8, 0>::new(-128) / Fyx::<i8, 0>::new(-1);
    assert_eq!(r.raw(), -128);
}

#[test]
fn add_and_sub_wrap() {
    let a = Fyx::<u8, 0>::new(200) + Fyx::<u8, 0>::new(100);
    assert_eq!(a.raw(), 44);
    let b = Fyx::<u8, 0>::new(10) - Fyx::<u8, 0>::new(20);
    assert_eq!(b.raw(), 246);
    let c = Fyx::<i16, 0>::new(i16::MAX) + Fyx::<i16, 0>::new(1);
    assert_eq!(c.raw(), i16::MIN);
}

#[test]
fn add_and_sub_raw_values() {
    let a = Fyx::<i64, 16>::new(5);
    let b = Fyx::<i64, 16>::new(-2);
    assert_eq!((a + b).raw(), 3 << 16);
    assert_eq!((a - b).raw(), 7 << 16);
}

#[test]
fn zero_is_an_additive_identity() {
    let zero = Fyx::<i32, 8>::new(0);
    for v in [0, 1, -1, 100, i32::MAX >> 8, i32::MIN >> 8] {
        let x = Fyx::<i32, 8>::new(v);
        assert_eq!((zero + x).raw(), x.raw());
        assert_eq!((x + zero).raw(), x.raw());
    }
    let six = Fyx::<u16, 3>::new(3) * Fyx::<u16, 3>::new(2);
    let z = Fyx::<u16, 3>::new(0);
    assert_eq!((z + six).raw(), six.raw());
    assert_eq!((six + z).raw(), six.raw());
}

#[test]
fn subtraction_inverts_addition() {
    let pairs = [(1, 2), (-5, 9), (i32::MAX >> 8, 1), (i32::MIN >> 8, -1), (123, -456)];
    for (a, b) in pairs {
        let v = Fyx::<i32, 8>::new(a);
        let w = Fyx::<i32, 8>::new(b);
        assert_eq!(((v + w) - w).raw(), v.raw());
    }
    let v = Fyx::<u8, 0>::new(250);
    let w = Fyx::<u8, 0>::new(10);
    assert_eq!(((v + w) - w).raw(), 250);
}

#[test]
fn scalar_operands_act_as_whole_numbers() {
    let v = Fyx::<i32, 8>::new(12);
    for t in [1, 2, -3, 5] {
        let n = Fyx::<i32, 8>::new(t);
        assert_eq!((v + t).raw(), (v + n).raw());
        assert_eq!((v - t).raw(), (v - n).raw());
        assert_eq!((v * t).raw(), (v * n).raw());
        assert_eq!((v / t).raw(), (v / n).raw());
    }
    assert_eq!((v + 1).raw(), 13 << 8);
    assert_eq!((v - 1).raw(), 11 << 8);
    assert_eq!((v * 2).raw(), 24);
    assert_eq!((v / 4).raw(), 3);
}

#[test]
fn scalar_add_on_unsigned() {
    let v = Fyx::<u8, 4>::new(1) + 2u8;
    assert_eq!(v.raw(), 48);
}

#[test]
fn shrink_after_widen_is_identity() {
    for x in [0u8, 1, 127, 128, 255] {
        assert_eq!(x.widen().shrink(), x);
    }
    for x in [0u16, 1, 0x7fff, 0xffff] {
        assert_eq!(x.widen().shrink(), x);
    }
    for x in [0u32, 1, u32::MAX] {
        assert_eq!(x.widen().shrink(), x);
    }
    for x in [0u64, 1, u64::MAX] {
        assert_eq!(x.widen().shrink(), x);
    }
    for x in [i8::MIN, -1, 0, 1, i8::MAX] {
        assert_eq!(x.widen().shrink(), x);
    }
    for x in [i16::MIN, -1, 0, i16::MAX] {
        assert_eq!(x.widen().shrink(), x);
    }
    for x in [i32::MIN, -1, 0, i32::MAX] {
        assert_eq!(x.widen().shrink(), x);
    }
    for x in [i64::MIN, -1, 0, i64::MAX] {
        assert_eq!(x.widen().shrink(), x);
    }
}

#[test]
fn widen_keeps_the_value() {
    assert_eq!((-5i8).widen(), -5i16);
    assert_eq!(200u8.widen(), 200u16);
    assert_eq!(i64::MIN.widen(), i64::MIN as i128);
    assert_eq!(u64::MAX.widen(), u64::MAX as u128);
}

#[test]
fn shrink_keeps_the_low_bits() {
    assert_eq!(300u16.shrink(), 44u8);
    assert_eq!((-200i16).shrink(), 56i8);
    assert_eq!(200i16.shrink(), -56i8);
    assert_eq!((1u128 << 64 | 5).shrink(), 5u64);
    assert_eq!((-1i128).shrink(), -1i64);
}

#[test]
fn integer_operations_on_machine_values() {
    assert_eq!(250u8.add_wrapping(10), 4);
    assert_eq!(i8::MIN.sub_wrapping(1), i8::MAX);
    assert_eq!((-7i32).shr(1), -4);
    assert_eq!(3u128.shl(127), 1u128 << 127);
    assert_eq!((-7i64).div_trunc(2), -3);
    assert_eq!(16u16.mul_exact(16), 256);
}
