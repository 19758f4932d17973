//! Integers of unbounded size: a sign and a magnitude.
use vstd::prelude::*;
use crate::bignat::BigNat;

verus! {

/// An integer of unbounded size.
#[derive(Debug)]
pub struct BigInt {
    pub negative: bool,
    pub magnitude: BigNat,
}

/// The integer with the given sign and magnitude.
pub open spec fn signed(negative: bool, magnitude: nat) -> int {
    if negative {
        -(magnitude as int)
    } else {
        magnitude as int
    }
}

/// The sum of two sign-and-magnitude numbers.
fn add_signed(a_negative: bool, a: &BigNat, b_negative: bool, b: &BigNat) -> (r: BigInt)
    ensures
        r.value() == signed(a_negative, a.value()) + signed(b_negative, b.value()),
{
    if a_negative == b_negative {
        BigInt { negative: a_negative, magnitude: a.add(b) }
    } else {
        let (diff, below) = a.sub_borrow(b);
        if !below {
            BigInt { negative: a_negative, magnitude: diff }
        } else {
            let (back, _) = b.sub_borrow(a);
            BigInt { negative: b_negative, magnitude: back }
        }
    }
}

impl BigInt {
    /// The integer that `self` stands for.
    pub open spec fn value(&self) -> int {
        signed(self.negative, self.magnitude.value())
    }

    /// The integer `x`.
    pub fn from_i64(x: i64) -> (r: BigInt)
        ensures
            r.value() == x,
    {
        if x >= 0 {
            BigInt { negative: false, magnitude: BigNat::from_u64(x as u64) }
        } else {
            let below: u64 = (-(x + 1)) as u64;
            BigInt { negative: true, magnitude: BigNat::from_u64(below + 1) }
        }
    }

    /// The natural number `magnitude` as an integer.
    pub fn from_nat(magnitude: BigNat) -> (r: BigInt)
        ensures
            r.value() == magnitude.value(),
    {
        BigInt { negative: false, magnitude }
    }

    /// The sum of two integers.
    pub fn add(&self, other: &BigInt) -> (r: BigInt)
        ensures
            r.value() == self.value() + other.value(),
    {
        add_signed(self.negative, &self.magnitude, other.negative, &other.magnitude)
    }

    /// `self` less `other`.
    pub fn sub(&self, other: &BigInt) -> (r: BigInt)
        ensures
            r.value() == self.value() - other.value(),
    {
        add_signed(self.negative, &self.magnitude, !other.negative, &other.magnitude)
    }

    /// The product of two integers.
    pub fn mul(&self, other: &BigInt) -> (r: BigInt)
        ensures
            r.value() == self.value() * other.value(),
    {
        let magnitude = self.magnitude.mul(&other.magnitude);
        proof {
            let a = self.magnitude.value() as int;
            let b = other.magnitude.value() as int;
            assert((-a) * b == -(a * b) && a * (-b) == -(a * b) && (-a) * (-b) == a * b)
                by (nonlinear_arith);
        }
        BigInt { negative: self.negative != other.negative, magnitude }
    }

    /// The product with a natural number.
    pub fn mul_nat(&self, other: &BigNat) -> (r: BigInt)
        ensures
            r.value() == self.value() * other.value(),
    {
        let magnitude = self.magnitude.mul(other);
        proof {
            let a = self.magnitude.value() as int;
            let b = other.value() as int;
            assert((-a) * b == -(a * b)) by (nonlinear_arith);
        }
        BigInt { negative: self.negative, magnitude }
    }

    /// Whether `self` is zero.
    pub fn is_zero(&self) -> (r: bool)
        ensures
            r <==> self.value() == 0,
    {
        self.magnitude.is_zero()
    }

    /// Whether `self` is below zero.
    pub fn is_negative(&self) -> (r: bool)
        ensures
            r <==> self.value() < 0,
    {
        self.negative && !self.magnitude.is_zero()
    }

    /// Whether `self` is less than `other`.
    pub fn lt(&self, other: &BigInt) -> (r: bool)
        ensures
            r <==> self.value() < other.value(),
    {
        self.sub(other).is_negative()
    }
}

impl Clone for BigInt {
    fn clone(&self) -> (r: BigInt)
        ensures
            r.value() == self.value(),
    {
        BigInt { negative: self.negative, magnitude: self.magnitude.clone() }
    }
}

} // verus!
