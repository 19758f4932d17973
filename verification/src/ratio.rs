//! Exact rational numbers.
use vstd::prelude::*;
use crate::bigint::BigInt;
use crate::bignat::BigNat;

verus! {

/// The quotient of two integers as a real number.
pub open spec fn quotient(num: int, den: int) -> real {
    num as real / den as real
}

proof fn lemma_quotient_sum(an: int, ad: int, bn: int, bd: int)
    requires
        ad > 0,
        bd > 0,
    ensures
        quotient(an * bd + bn * ad, ad * bd) == quotient(an, ad) + quotient(bn, bd),
        quotient(an * bd - bn * ad, ad * bd) == quotient(an, ad) - quotient(bn, bd),
        quotient(an * bn, ad * bd) == quotient(an, ad) * quotient(bn, bd),
        ad * bd > 0,
{
    let (a, b, c, d) = (an as real, ad as real, bn as real, bd as real);
    assert((an * bd) as real == a * d && (bn * ad) as real == c * b && (ad * bd) as real == b * d
        && (an * bn) as real == a * c) by (nonlinear_arith)
        requires
            a == an as real,
            b == ad as real,
            c == bn as real,
            d == bd as real,
    ;
    assert((a * d + c * b) / (b * d) == a / b + c / d && (a * d - c * b) / (b * d) == a / b - c
        / d && (a * c) / (b * d) == (a / b) * (c / d)) by (nonlinear_arith)
        requires
            b > 0real,
            d > 0real,
    ;
    assert(ad * bd > 0) by (nonlinear_arith)
        requires
            ad > 0,
            bd > 0,
    ;
}

proof fn lemma_quotient_ratio(an: int, ad: int, bn: int, bd: int)
    requires
        ad > 0,
        bd > 0,
        bn != 0,
    ensures
        bn > 0 ==> quotient(an * bd, ad * bn) == quotient(an, ad) / quotient(bn, bd),
        bn < 0 ==> quotient(-(an * bd), ad * (-bn)) == quotient(an, ad) / quotient(bn, bd),
        bn > 0 ==> ad * bn > 0,
        bn < 0 ==> ad * (-bn) > 0,
        quotient(bn, bd) != 0real,
{
    let (a, b, c, d) = (an as real, ad as real, bn as real, bd as real);
    assert((an * bd) as real == a * d && (ad * bn) as real == b * c && (ad * (-bn)) as real == b
        * (-c) && (-(an * bd)) as real == -(a * d)) by (nonlinear_arith)
        requires
            a == an as real,
            b == ad as real,
            c == bn as real,
            d == bd as real,
    ;
    assert((a * d) / (b * c) == (a / b) / (c / d) && (-(a * d)) / (b * (-c)) == (a / b) / (c / d)
        && c / d != 0real) by (nonlinear_arith)
        requires
            b > 0real,
            d > 0real,
            c != 0real,
    ;
    assert((bn > 0 ==> ad * bn > 0) && (bn < 0 ==> ad * (-bn) > 0)) by (nonlinear_arith)
        requires
            ad > 0,
    ;
}

proof fn lemma_quotient_order(an: int, ad: int, bn: int, bd: int)
    requires
        ad > 0,
        bd > 0,
    ensures
        an * bd < bn * ad <==> quotient(an, ad) < quotient(bn, bd),
        an * bd == bn * ad <==> quotient(an, ad) == quotient(bn, bd),
        an == 0 <==> quotient(an, ad) == 0real,
{
    let (a, b, c, d) = (an as real, ad as real, bn as real, bd as real);
    assert((an * bd) as real == a * d && (bn * ad) as real == c * b) by (nonlinear_arith)
        requires
            a == an as real,
            b == ad as real,
            c == bn as real,
            d == bd as real,
    ;
    assert((a * d < c * b <==> a / b < c / d) && (a * d == c * b <==> a / b == c / d) && (a
        == 0real <==> a / b == 0real)) by (nonlinear_arith)
        requires
            b > 0real,
            d > 0real,
    ;
}

/// Ten to the power `k`.
pub open spec fn pow10(k: nat) -> nat
    decreases k,
{
    if k == 0 {
        1
    } else {
        10 * pow10((k - 1) as nat)
    }
}

/// The decimal number `mantissa` times ten to the power minus `places`.
pub open spec fn decimal(mantissa: int, places: nat) -> real {
    quotient(mantissa, pow10(places) as int)
}

proof fn lemma_pow10_positive(k: nat)
    ensures
        pow10(k) > 0,
    decreases k,
{
    if k > 0 {
        lemma_pow10_positive((k - 1) as nat);
    }
}

/// An exact rational number: an integer over a positive natural number, both
/// of unbounded size.
#[derive(Debug)]
pub struct Ratio {
    num: BigInt,
    den: BigNat,
}

impl Ratio {
    #[verifier::type_invariant]
    spec fn positive_denominator(&self) -> bool {
        self.den.value() > 0
    }

    /// The real number that `self` stands for.
    pub closed spec fn value(&self) -> real {
        quotient(self.num.value(), self.den.value() as int)
    }

    /// The integer above the line of the form that `self` is held in.
    pub fn numerator(&self) -> (r: &BigInt)
        ensures
            quotient(r.value(), self.denominator_value() as int) == self.value(),
    {
        &self.num
    }

    /// The natural number below the line of the form that `self` is held
    /// in; it is never zero.
    pub fn denominator(&self) -> (r: &BigNat)
        ensures
            r.value() == self.denominator_value(),
            r.value() > 0,
    {
        proof {
            use_type_invariant(self);
        }
        &self.den
    }

    /// The value of `denominator()`.
    pub closed spec fn denominator_value(&self) -> nat {
        self.den.value()
    }

    /// The rational number equal to an integer.
    pub fn from_i64(n: i64) -> (r: Ratio)
        ensures
            r.value() == n as real,
    {
        proof {
            let x = n as real;
            assert(x / 1real == x) by (nonlinear_arith);
        }
        Ratio { num: BigInt::from_i64(n), den: BigNat::from_u64(1) }
    }

    /// The quotient of two integers, where the divisor is not zero.
    pub fn new(num: i64, den: i64) -> (r: Option<Ratio>)
        ensures
            r.is_some() <==> den != 0,
            r matches Some(q) ==> q.value() == num as real / den as real,
    {
        Ratio::from_i64(num).div(&Ratio::from_i64(den))
    }

    /// The sum of two numbers.
    pub fn add(&self, other: &Ratio) -> (r: Ratio)
        ensures
            r.value() == self.value() + other.value(),
    {
        proof {
            use_type_invariant(self);
            use_type_invariant(other);
            lemma_quotient_sum(
                self.num.value(),
                self.den.value() as int,
                other.num.value(),
                other.den.value() as int,
            );
        }
        let left = self.num.mul_nat(&other.den);
        let right = other.num.mul_nat(&self.den);
        Ratio { num: left.add(&right), den: self.den.mul(&other.den) }
    }

    /// `self` less `other`.
    pub fn sub(&self, other: &Ratio) -> (r: Ratio)
        ensures
            r.value() == self.value() - other.value(),
    {
        proof {
            use_type_invariant(self);
            use_type_invariant(other);
            lemma_quotient_sum(
                self.num.value(),
                self.den.value() as int,
                other.num.value(),
                other.den.value() as int,
            );
        }
        let left = self.num.mul_nat(&other.den);
        let right = other.num.mul_nat(&self.den);
        Ratio { num: left.sub(&right), den: self.den.mul(&other.den) }
    }

    /// The product of two numbers.
    pub fn mul(&self, other: &Ratio) -> (r: Ratio)
        ensures
            r.value() == self.value() * other.value(),
    {
        proof {
            use_type_invariant(self);
            use_type_invariant(other);
            lemma_quotient_sum(
                self.num.value(),
                self.den.value() as int,
                other.num.value(),
                other.den.value() as int,
            );
        }
        Ratio { num: self.num.mul(&other.num), den: self.den.mul(&other.den) }
    }

    /// The quotient of two numbers, or `None` where the divisor is zero.
    pub fn div(&self, other: &Ratio) -> (r: Option<Ratio>)
        ensures
            r.is_some() <==> other.value() != 0real,
            r matches Some(q) ==> q.value() == self.value() / other.value(),
    {
        proof {
            use_type_invariant(self);
            use_type_invariant(other);
            lemma_quotient_order(
                other.num.value(),
                other.den.value() as int,
                other.num.value(),
                other.den.value() as int,
            );
        }
        if other.num.is_zero() {
            None
        } else {
            proof {
                lemma_quotient_ratio(
                    self.num.value(),
                    self.den.value() as int,
                    other.num.value(),
                    other.den.value() as int,
                );
            }
            let top = self.num.mul_nat(&other.den);
            let den = self.den.mul(&other.num.magnitude);
            let num = BigInt { negative: top.negative != other.num.negative, magnitude: top.magnitude };
            Some(Ratio { num, den })
        }
    }

    /// Whether `self` is less than `other`.
    pub fn lt(&self, other: &Ratio) -> (r: bool)
        ensures
            r <==> self.value() < other.value(),
    {
        proof {
            use_type_invariant(self);
            use_type_invariant(other);
            lemma_quotient_order(
                self.num.value(),
                self.den.value() as int,
                other.num.value(),
                other.den.value() as int,
            );
        }
        let left = self.num.mul_nat(&other.den);
        let right = other.num.mul_nat(&self.den);
        left.lt(&right)
    }

    /// Whether two numbers have the same value, whatever their form.
    pub fn same(&self, other: &Ratio) -> (r: bool)
        ensures
            r <==> self.value() == other.value(),
    {
        !self.lt(other) && !other.lt(self)
    }

    /// Whether `self` is zero.
    pub fn is_zero(&self) -> (r: bool)
        ensures
            r <==> self.value() == 0real,
    {
        proof {
            use_type_invariant(self);
            lemma_quotient_order(
                self.num.value(),
                self.den.value() as int,
                self.num.value(),
                self.den.value() as int,
            );
        }
        self.num.is_zero()
    }

    /// The number with the decimal digits of `mantissa`, the last `places`
    /// of them behind the decimal point.
    pub fn from_decimal(mantissa: i64, places: u8) -> (r: Ratio)
        ensures
            r.value() == decimal(mantissa as int, places as nat),
    {
        let mut den = BigNat::from_u64(1);
        let mut i: u8 = 0;
        while i < places
            invariant
                i <= places,
                den.value() == pow10(i as nat),
            decreases places - i,
        {
            den = den.mul_small(10);
            i = i + 1;
        }
        proof {
            lemma_pow10_positive(places as nat);
        }
        Ratio { num: BigInt::from_i64(mantissa), den }
    }
}

impl Clone for Ratio {
    fn clone(&self) -> (r: Ratio)
        ensures
            r.value() == self.value(),
    {
        proof {
            use_type_invariant(self);
        }
        Ratio { num: self.num.clone(), den: self.den.clone() }
    }
}

} // verus!
