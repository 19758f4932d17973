use fitnesstools::bigint::BigInt;
use fitnesstools::bignat::BigNat;
use fitnesstools::ratio::Ratio;

fn frac(n: i64, d: i64) -> Ratio {
    Ratio::new(n, d).unwrap()
}

fn equal(a: &BigNat, b: &BigNat) -> bool {
    !a.lt(b) && !b.lt(a)
}

#[test]
fn bignat_add_carries_across_limbs() {
    let a = BigNat::from_u64(u64::MAX);
    let one = BigNat::from_u64(1);
    let sum = a.add(&one);
    // 2^64: three limbs, the third a one
    assert!(a.lt(&sum));
    let back = sum.checked_sub(&one).unwrap();
    assert!(equal(&back, &a));
    assert!(back.checked_sub(&a).unwrap().is_zero());
    assert!(!sum.is_zero());
}

#[test]
fn bignat_checked_sub_refuses_greater() {
    let a = BigNat::from_u64(5);
    let b = BigNat::from_u64(1 << 40);
    assert!(a.checked_sub(&b).is_none());
    assert!(a.lt(&b));
    assert!(!b.lt(&a));
    assert!(!a.lt(&a));
    let d = b.checked_sub(&a).unwrap();
    assert!(equal(&d, &BigNat::from_u64((1 << 40) - 5)));
    assert!(a.checked_sub(&a).unwrap().is_zero());
    assert!(BigNat::zero().checked_sub(&a).is_none());
}

#[test]
fn bignat_mul_beyond_a_word() {
    // (2^64 - 1)^2 = 2^128 - 2^65 + 1
    let a = BigNat::from_u64(u64::MAX);
    let sq = a.mul(&a);
    let two64 = a.add(&BigNat::from_u64(1));
    let two128 = two64.mul(&two64);
    let two65 = two64.add(&two64);
    let expected = two128.checked_sub(&two65).unwrap().add(&BigNat::from_u64(1));
    assert!(equal(&sq, &expected));
    assert!(sq.lt(&two128));
}

#[test]
fn bignat_mul_small_and_shift() {
    let a = BigNat::from_u64(0xffff_ffff);
    let b = a.mul_small(0xffff_ffff);
    assert!(equal(&b, &BigNat::from_u64(0xffff_fffe_0000_0001)));
    let s = BigNat::from_u64(7).shift_limb();
    assert!(equal(&s, &BigNat::from_u64(7 << 32)));
    assert!(BigNat::zero().is_zero());
    assert!(BigNat::zero().mul(&a).is_zero());
    assert!(a.mul_small(0).is_zero());
    assert!(equal(&a.clone(), &a));
}

#[test]
fn bigint_signs() {
    let a = BigInt::from_i64(-7);
    let b = BigInt::from_i64(3);
    assert!(a.is_negative());
    assert!(!b.is_negative());
    assert!(a.add(&b).sub(&BigInt::from_i64(-4)).is_zero());
    assert!(a.sub(&b).sub(&BigInt::from_i64(-10)).is_zero());
    assert!(b.sub(&a).sub(&BigInt::from_i64(10)).is_zero());
    assert!(a.mul(&b).sub(&BigInt::from_i64(-21)).is_zero());
    assert!(a.mul(&a).sub(&BigInt::from_i64(49)).is_zero());
    assert!(a.lt(&b));
    assert!(!b.lt(&a));
    assert!(!a.lt(&a));
    assert!(!a.add(&BigInt::from_i64(7)).is_negative());
    assert!(a.mul_nat(&BigNat::from_u64(2)).sub(&BigInt::from_i64(-14)).is_zero());
    assert!(BigInt::from_nat(BigNat::from_u64(9)).sub(&BigInt::from_i64(9)).is_zero());
    assert!(a.clone().sub(&a).is_zero());
}

#[test]
fn bigint_extremes() {
    let lo = BigInt::from_i64(i64::MIN);
    let hi = BigInt::from_i64(i64::MAX);
    assert!(lo.is_negative());
    assert!(lo.add(&hi).sub(&BigInt::from_i64(-1)).is_zero());
    assert!(lo.lt(&hi));
    // MIN * MIN = 2^126 = (2^63)^2
    let p = BigNat::from_u64(1 << 63);
    assert!(lo.mul(&lo).sub(&BigInt::from_nat(p.mul(&p))).is_zero());
}

#[test]
fn ratio_new_rejects_zero_divisor() {
    assert!(Ratio::new(1, 0).is_none());
    assert!(Ratio::new(0, 0).is_none());
    assert!(Ratio::new(0, 5).unwrap().is_zero());
    assert!(Ratio::new(3, -6).unwrap().same(&frac(-1, 2)));
    assert!(Ratio::new(-3, -6).unwrap().same(&frac(1, 2)));
}

#[test]
fn ratio_arithmetic() {
    let a = frac(1, 3);
    let b = frac(1, 6);
    assert!(a.add(&b).same(&frac(1, 2)));
    assert!(a.sub(&b).same(&b));
    assert!(b.sub(&a).same(&frac(-1, 6)));
    assert!(a.mul(&b).same(&frac(1, 18)));
    assert!(a.div(&b).unwrap().same(&Ratio::from_i64(2)));
    assert!(a.div(&frac(-1, 6)).unwrap().same(&Ratio::from_i64(-2)));
    assert!(a.div(&Ratio::from_i64(0)).is_none());
    assert!(Ratio::from_i64(0).div(&a).unwrap().is_zero());
    assert!(a.clone().same(&a));
}

#[test]
fn ratio_order() {
    let a = frac(1, 3);
    let b = frac(2, 5);
    assert!(a.lt(&b));
    assert!(!b.lt(&a));
    assert!(!a.lt(&a));
    assert!(frac(-1, 2).lt(&frac(-1, 3)));
    assert!(frac(-1, 2).lt(&a));
    assert!(!a.same(&b));
    assert!(frac(2, 6).same(&a));
}

#[test]
fn ratio_decimal() {
    assert!(Ratio::from_decimal(15, 1).same(&frac(3, 2)));
    assert!(Ratio::from_decimal(-25, 2).same(&frac(-1, 4)));
    assert!(Ratio::from_decimal(7, 0).same(&Ratio::from_i64(7)));
    // ten to the minus thirty, thirty times over
    let tiny = Ratio::from_decimal(1, 30);
    let mut v = tiny.clone();
    for _ in 0..30 {
        v = v.mul(&Ratio::from_i64(10));
    }
    assert!(v.same(&Ratio::from_i64(1)));
    assert!(Ratio::from_i64(0).lt(&tiny));
    assert!(tiny.lt(&Ratio::from_decimal(1, 29)));
}

#[test]
fn ratio_parts() {
    let q = Ratio::new(-3, 4).unwrap();
    // num / den == -3 / 4, whatever the form held
    let num = q.numerator();
    let den = q.denominator();
    assert!(!den.is_zero());
    assert!(num.is_negative());
    let left = num.mul(&BigInt::from_i64(4));
    let right = BigInt::from_i64(-3).mul_nat(den);
    assert!(left.sub(&right).is_zero());
    let whole = Ratio::from_i64(7);
    assert!(whole.numerator().sub(&BigInt::from_i64(7).mul_nat(whole.denominator())).is_zero());
}
