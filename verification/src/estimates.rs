//! Estimated one-repetition maximum and what follows from it: the weight for
//! a number of repetitions, repetitions in reserve and perceived exertion.
use vstd::prelude::*;
use crate::ratio::Ratio;

verus! {

/// A model of how the load that can be lifted falls with the repetitions.
#[derive(Clone, Copy, Debug, PartialEq, Eq, Structural)]
pub enum E1rmFormula {
    Epley,
    Brzycki,
    Adams,
    Baechle,
    /// The mean of the four models above.
    ALL,
}

/// Epley: `1 + reps / 30`.
pub open spec fn epley_factor(reps: real) -> real {
    1real + reps / 30real
}

/// Brzycki: `36 / (37 - reps)`.
pub open spec fn brzycki_factor(reps: real) -> real {
    36real / (37real - reps)
}

/// Adams: `1 / (1 - 0.02 reps)`.
pub open spec fn adams_factor(reps: real) -> real {
    1real / (1real - (2real / 100real) * reps)
}

/// Baechle: `1 + 0.033 reps`.
pub open spec fn baechle_factor(reps: real) -> real {
    1real + (33real / 1000real) * reps
}

/// Whether the factor of `formula` has a value at `reps`: no divisor is zero.
pub open spec fn e1rm_defined(formula: E1rmFormula, reps: real) -> bool {
    match formula {
        E1rmFormula::Epley => true,
        E1rmFormula::Brzycki => 37real - reps != 0real,
        E1rmFormula::Adams => 1real - (2real / 100real) * reps != 0real,
        E1rmFormula::Baechle => true,
        E1rmFormula::ALL => 37real - reps != 0real && 1real - (2real / 100real) * reps != 0real,
    }
}

/// The factor that turns a weight lifted for `reps` repetitions into the
/// estimated one-repetition maximum.
pub open spec fn e1rm_value(formula: E1rmFormula, reps: real) -> real {
    match formula {
        E1rmFormula::Epley => epley_factor(reps),
        E1rmFormula::Brzycki => brzycki_factor(reps),
        E1rmFormula::Adams => adams_factor(reps),
        E1rmFormula::Baechle => baechle_factor(reps),
        E1rmFormula::ALL => (epley_factor(reps) + brzycki_factor(reps) + adams_factor(reps)
            + baechle_factor(reps)) / 4real,
    }
}

/// Epley inverted: `(1 / fraction - 1) * 30`.
pub open spec fn epley_reps(fraction: real) -> real {
    (1real / fraction - 1real) * 30real
}

/// Brzycki inverted: `37 - fraction * 36`.
pub open spec fn brzycki_reps(fraction: real) -> real {
    37real - fraction * 36real
}

/// Adams inverted: `(1 - fraction) / 0.02`.
pub open spec fn adams_reps(fraction: real) -> real {
    (1real - fraction) / (2real / 100real)
}

/// Baechle inverted: `(1 / fraction - 1) / 0.033`.
pub open spec fn baechle_reps(fraction: real) -> real {
    (1real / fraction - 1real) / (33real / 1000real)
}

/// Whether the repetitions of `formula` have a value at `fraction`.
pub open spec fn maxreps_defined(formula: E1rmFormula, fraction: real) -> bool {
    match formula {
        E1rmFormula::Epley => fraction != 0real,
        E1rmFormula::Brzycki => true,
        E1rmFormula::Adams => true,
        E1rmFormula::Baechle => fraction != 0real,
        E1rmFormula::ALL => fraction != 0real,
    }
}

/// The repetitions that can be done with the given fraction of the
/// one-repetition maximum.
pub open spec fn maxreps_value(formula: E1rmFormula, fraction: real) -> real {
    match formula {
        E1rmFormula::Epley => epley_reps(fraction),
        E1rmFormula::Brzycki => brzycki_reps(fraction),
        E1rmFormula::Adams => adams_reps(fraction),
        E1rmFormula::Baechle => baechle_reps(fraction),
        E1rmFormula::ALL => (epley_reps(fraction) + brzycki_reps(fraction) + adams_reps(fraction)
            + baechle_reps(fraction)) / 4real,
    }
}

/// `reps` held to the range from 0 to 12.
pub open spec fn clamp_reps(reps: real) -> real {
    if reps < 0real {
        0real
    } else if reps > 12real {
        12real
    } else {
        reps
    }
}

/// The estimated one-repetition maximum: the weight times the factor at
/// the repetitions held to 0..=12.
pub open spec fn estimated_1rm_value(weight_lifted: real, reps: real, formula: E1rmFormula) -> real {
    weight_lifted * e1rm_value(formula, clamp_reps(reps))
}

/// The weight for `reps` repetitions: the one-repetition maximum over the
/// factor at the repetitions held to 0..=12.
pub open spec fn estimated_nrm_value(e1rm: real, reps: real, formula: E1rmFormula) -> real {
    e1rm / e1rm_value(formula, clamp_reps(reps))
}

/// Repetitions in reserve: those that the load allows less those done.
pub open spec fn rir_value(formula: E1rmFormula, fraction: real, reps: real) -> real {
    maxreps_value(formula, fraction) - reps
}

/// Perceived exertion: ten less the repetitions in reserve.
pub open spec fn rpe_value(formula: E1rmFormula, fraction: real, reps: real) -> real {
    10real - rir_value(formula, fraction, reps)
}

/// Whether the load fraction for `reps` at `rpe` has a value: the factor at
/// `reps + (10 - rpe)` has one and is not zero.
pub open spec fn fraction_defined(formula: E1rmFormula, reps: real, rpe: real) -> bool {
    e1rm_defined(formula, reps + (10real - rpe)) && e1rm_value(formula, reps + (10real - rpe))
        != 0real
}

/// The load fraction for `reps` at `rpe`: one over the factor at
/// `reps + (10 - rpe)`.
pub open spec fn fraction_value(formula: E1rmFormula, reps: real, rpe: real) -> real {
    1real / e1rm_value(formula, reps + (10real - rpe))
}

/// From 0 to 12 repetitions every model has a factor, and it is positive.
pub proof fn factor_positive_in_range(formula: E1rmFormula, reps: real)
    requires
        0real <= reps <= 12real,
    ensures
        e1rm_defined(formula, reps),
        e1rm_value(formula, reps) > 0real,
{
    let e = epley_factor(reps);
    let b = brzycki_factor(reps);
    let a = adams_factor(reps);
    let c = baechle_factor(reps);
    assert(e > 0real) by (nonlinear_arith)
        requires
            0real <= reps,
            e == 1real + reps / 30real,
    ;
    assert(37real - reps != 0real && b > 0real) by (nonlinear_arith)
        requires
            0real <= reps <= 12real,
            b == 36real / (37real - reps),
    ;
    assert(1real - (2real / 100real) * reps != 0real && a > 0real) by (nonlinear_arith)
        requires
            0real <= reps <= 12real,
            a == 1real / (1real - (2real / 100real) * reps),
    ;
    assert(c > 0real) by (nonlinear_arith)
        requires
            0real <= reps,
            c == 1real + (33real / 1000real) * reps,
    ;
    assert((e + b + a + c) / 4real > 0real) by (nonlinear_arith)
        requires
            e > 0real,
            b > 0real,
            a > 0real,
            c > 0real,
    ;
}

/// Estimating the one-repetition maximum from a set and then the weight for
/// the same repetitions gives back the weight of the set.
pub proof fn estimate_round_trip(weight_lifted: real, reps: real, formula: E1rmFormula)
    ensures
        estimated_nrm_value(
            estimated_1rm_value(weight_lifted, reps, formula),
            reps,
            formula,
        ) == weight_lifted,
{
    let factor = e1rm_value(formula, clamp_reps(reps));
    factor_positive_in_range(formula, clamp_reps(reps));
    assert((weight_lifted * factor) / factor == weight_lifted) by (nonlinear_arith)
        requires
            factor > 0real,
    ;
}

/// Beyond 12 repetitions the estimate is that for 12, and below none it is
/// that for none.
pub proof fn estimate_outside_range(weight_lifted: real, reps: real, formula: E1rmFormula)
    ensures
        reps > 12real ==> estimated_1rm_value(weight_lifted, reps, formula) == estimated_1rm_value(
            weight_lifted,
            12real,
            formula,
        ),
        reps < 0real ==> estimated_1rm_value(weight_lifted, reps, formula) == estimated_1rm_value(
            weight_lifted,
            0real,
            formula,
        ),
        reps > 12real ==> estimated_nrm_value(weight_lifted, reps, formula) == estimated_nrm_value(
            weight_lifted,
            12real,
            formula,
        ),
        reps < 0real ==> estimated_nrm_value(weight_lifted, reps, formula) == estimated_nrm_value(
            weight_lifted,
            0real,
            formula,
        ),
{
}

/// The factor of the composite model is the mean of the factors of the four
/// named models, and so are its repetitions.
pub proof fn composite_is_mean(x: real)
    ensures
        e1rm_value(E1rmFormula::ALL, x) == (e1rm_value(E1rmFormula::Epley, x) + e1rm_value(
            E1rmFormula::Brzycki,
            x,
        ) + e1rm_value(E1rmFormula::Adams, x) + e1rm_value(E1rmFormula::Baechle, x)) / 4real,
        maxreps_value(E1rmFormula::ALL, x) == (maxreps_value(E1rmFormula::Epley, x)
            + maxreps_value(E1rmFormula::Brzycki, x) + maxreps_value(E1rmFormula::Adams, x)
            + maxreps_value(E1rmFormula::Baechle, x)) / 4real,
{
}

/// Each named model's repetitions invert its factor: at the repetitions
/// that a fraction allows, the factor is one over that fraction.
pub proof fn repetitions_invert_factor(formula: E1rmFormula, fraction: real)
    requires
        formula != E1rmFormula::ALL,
        fraction != 0real,
    ensures
        e1rm_defined(formula, maxreps_value(formula, fraction)),
        e1rm_value(formula, maxreps_value(formula, fraction)) == 1real / fraction,
{
    let f = fraction;
    match formula {
        E1rmFormula::Epley => {
            assert(1real + ((1real / f - 1real) * 30real) / 30real == 1real / f)
                by (nonlinear_arith)
                requires
                    f != 0real,
            ;
        },
        E1rmFormula::Brzycki => {
            assert(37real - (37real - f * 36real) != 0real && 36real / (37real - (37real - f
                * 36real)) == 1real / f) by (nonlinear_arith)
                requires
                    f != 0real,
            ;
        },
        E1rmFormula::Adams => {
            let s = 2real / 100real;
            assert(1real - s * ((1real - f) / s) != 0real && 1real / (1real - s * ((1real - f)
                / s)) == 1real / f) by (nonlinear_arith)
                requires
                    f != 0real,
                    s == 2real / 100real,
            ;
        },
        E1rmFormula::Baechle => {
            let s = 33real / 1000real;
            assert(1real + s * ((1real / f - 1real) / s) == 1real / f) by (nonlinear_arith)
                requires
                    f != 0real,
                    s == 33real / 1000real,
            ;
        },
        E1rmFormula::ALL => {},
    }
}

/// `reps` held to the range from 0 to 12.
pub fn clamped(reps: &Ratio) -> (r: Ratio)
    ensures
        r.value() == clamp_reps(reps.value()),
{
    let low = Ratio::from_i64(0);
    let high = Ratio::from_i64(12);
    if reps.lt(&low) {
        low
    } else if high.lt(reps) {
        high
    } else {
        reps.clone()
    }
}

/// 0.02, the slope of the Adams model.
fn adams_slope() -> (r: Ratio)
    ensures
        r.value() == 2real / 100real,
{
    Ratio::new(2, 100).unwrap()
}

/// 0.033, the slope of the Baechle model.
fn baechle_slope() -> (r: Ratio)
    ensures
        r.value() == 33real / 1000real,
{
    Ratio::new(33, 1000).unwrap()
}

impl E1rmFormula {
    /// The Epley factor at `reps`.
    pub fn e1rm_epley(reps: &Ratio) -> (r: Ratio)
        ensures
            r.value() == epley_factor(reps.value()),
    {
        let part = reps.div(&Ratio::from_i64(30)).unwrap();
        Ratio::from_i64(1).add(&part)
    }

    /// The Brzycki factor at `reps`, or `None` at 37 repetitions.
    pub fn e1rm_brzycki(reps: &Ratio) -> (r: Option<Ratio>)
        ensures
            r.is_some() <==> e1rm_defined(E1rmFormula::Brzycki, reps.value()),
            r matches Some(q) ==> q.value() == brzycki_factor(reps.value()),
    {
        Ratio::from_i64(36).div(&Ratio::from_i64(37).sub(reps))
    }

    /// The Adams factor at `reps`, or `None` at 50 repetitions.
    pub fn e1rm_adams(reps: &Ratio) -> (r: Option<Ratio>)
        ensures
            r.is_some() <==> e1rm_defined(E1rmFormula::Adams, reps.value()),
            r matches Some(q) ==> q.value() == adams_factor(reps.value()),
    {
        let one = Ratio::from_i64(1);
        one.div(&one.sub(&adams_slope().mul(reps)))
    }

    /// The Baechle factor at `reps`.
    pub fn e1rm_baechle(reps: &Ratio) -> (r: Ratio)
        ensures
            r.value() == baechle_factor(reps.value()),
    {
        Ratio::from_i64(1).add(&baechle_slope().mul(reps))
    }

    /// The mean of the four factors at `reps`, or `None` where one of them
    /// has no value.
    pub fn e1rm_all(reps: &Ratio) -> (r: Option<Ratio>)
        ensures
            r.is_some() <==> e1rm_defined(E1rmFormula::ALL, reps.value()),
            r matches Some(q) ==> q.value() == e1rm_value(E1rmFormula::ALL, reps.value()),
    {
        match (Self::e1rm_brzycki(reps), Self::e1rm_adams(reps)) {
            (Some(brzycki), Some(adams)) => {
                let sum = Self::e1rm_epley(reps).add(&brzycki).add(&adams).add(
                    &Self::e1rm_baechle(reps),
                );
                sum.div(&Ratio::from_i64(4))
            },
            _ => None,
        }
    }

    /// The factor of this model at `reps`, or `None` where a divisor of the
    /// model is zero.
    pub fn e1rm_factor(&self, reps: &Ratio) -> (r: Option<Ratio>)
        ensures
            r.is_some() <==> e1rm_defined(*self, reps.value()),
            r matches Some(q) ==> q.value() == e1rm_value(*self, reps.value()),
    {
        match self {
            E1rmFormula::Epley => Some(Self::e1rm_epley(reps)),
            E1rmFormula::Brzycki => Self::e1rm_brzycki(reps),
            E1rmFormula::Adams => Self::e1rm_adams(reps),
            E1rmFormula::Baechle => Some(Self::e1rm_baechle(reps)),
            E1rmFormula::ALL => Self::e1rm_all(reps),
        }
    }

    /// The repetitions that Epley allows, or `None` at a fraction of zero.
    pub fn maxreps_epley(fraction_of_e1rm: &Ratio) -> (r: Option<Ratio>)
        ensures
            r.is_some() <==> fraction_of_e1rm.value() != 0real,
            r matches Some(q) ==> q.value() == epley_reps(fraction_of_e1rm.value()),
    {
        let one = Ratio::from_i64(1);
        match one.div(fraction_of_e1rm) {
            Some(inverse) => Some(inverse.sub(&one).mul(&Ratio::from_i64(30))),
            None => None,
        }
    }

    /// The repetitions that Brzycki allows.
    pub fn maxreps_brzycki(fraction_of_e1rm: &Ratio) -> (r: Ratio)
        ensures
            r.value() == brzycki_reps(fraction_of_e1rm.value()),
    {
        Ratio::from_i64(37).sub(&fraction_of_e1rm.mul(&Ratio::from_i64(36)))
    }

    /// The repetitions that Adams allows.
    pub fn maxreps_adams(fraction_of_e1rm: &Ratio) -> (r: Ratio)
        ensures
            r.value() == adams_reps(fraction_of_e1rm.value()),
    {
        Ratio::from_i64(1).sub(fraction_of_e1rm).div(&adams_slope()).unwrap()
    }

    /// The repetitions that Baechle allows, or `None` at a fraction of zero.
    pub fn maxreps_baechle(fraction_of_e1rm: &Ratio) -> (r: Option<Ratio>)
        ensures
            r.is_some() <==> fraction_of_e1rm.value() != 0real,
            r matches Some(q) ==> q.value() == baechle_reps(fraction_of_e1rm.value()),
    {
        let one = Ratio::from_i64(1);
        match one.div(fraction_of_e1rm) {
            Some(inverse) => inverse.sub(&one).div(&baechle_slope()),
            None => None,
        }
    }

    /// The mean of the repetitions that the four models allow, or `None` at
    /// a fraction of zero.
    pub fn maxreps_all(fraction_of_e1rm: &Ratio) -> (r: Option<Ratio>)
        ensures
            r.is_some() <==> fraction_of_e1rm.value() != 0real,
            r matches Some(q) ==> q.value() == maxreps_value(
                E1rmFormula::ALL,
                fraction_of_e1rm.value(),
            ),
    {
        match (Self::maxreps_epley(fraction_of_e1rm), Self::maxreps_baechle(fraction_of_e1rm)) {
            (Some(epley), Some(baechle)) => {
                let sum = epley.add(&Self::maxreps_brzycki(fraction_of_e1rm)).add(
                    &Self::maxreps_adams(fraction_of_e1rm),
                ).add(&baechle);
                sum.div(&Ratio::from_i64(4))
            },
            _ => None,
        }
    }

    /// The repetitions that this model allows with the given fraction of the
    /// one-repetition maximum, or `None` where the model divides by a
    /// fraction of zero.
    pub fn max_reps(&self, fraction_of_e1rm: &Ratio) -> (r: Option<Ratio>)
        ensures
            r.is_some() <==> maxreps_defined(*self, fraction_of_e1rm.value()),
            r matches Some(q) ==> q.value() == maxreps_value(*self, fraction_of_e1rm.value()),
    {
        match self {
            E1rmFormula::Epley => Self::maxreps_epley(fraction_of_e1rm),
            E1rmFormula::Brzycki => Some(Self::maxreps_brzycki(fraction_of_e1rm)),
            E1rmFormula::Adams => Some(Self::maxreps_adams(fraction_of_e1rm)),
            E1rmFormula::Baechle => Self::maxreps_baechle(fraction_of_e1rm),
            E1rmFormula::ALL => Self::maxreps_all(fraction_of_e1rm),
        }
    }

    /// The estimated one-repetition maximum of a lifter who moved
    /// `weight_lifted` for `reps` repetitions; `reps` is held to 0..=12.
    pub fn estimated_1rm(
        weight_lifted: &Ratio,
        reps: &Ratio,
        e1rm_formula: E1rmFormula,
    ) -> (r: Ratio)
        ensures
            r.value() == estimated_1rm_value(weight_lifted.value(), reps.value(), e1rm_formula),
    {
        let held = clamped(reps);
        proof {
            factor_positive_in_range(e1rm_formula, held.value());
        }
        weight_lifted.mul(&e1rm_formula.e1rm_factor(&held).unwrap())
    }

    /// The weight that a lifter with the one-repetition maximum `e1rm` can
    /// move for `reps` repetitions; `reps` is held to 0..=12.
    pub fn estimated_nrm(e1rm: &Ratio, reps: &Ratio, e1rm_formula: E1rmFormula) -> (r: Ratio)
        ensures
            r.value() == estimated_nrm_value(e1rm.value(), reps.value(), e1rm_formula),
    {
        let held = clamped(reps);
        proof {
            factor_positive_in_range(e1rm_formula, held.value());
        }
        e1rm.div(&e1rm_formula.e1rm_factor(&held).unwrap()).unwrap()
    }

    /// Repetitions in reserve: those that the load allows beyond the `reps`
    /// done. `None` where the model divides by a fraction of zero.
    pub fn rir(&self, fraction_of_e1rm: &Ratio, reps: &Ratio) -> (r: Option<Ratio>)
        ensures
            r.is_some() <==> maxreps_defined(*self, fraction_of_e1rm.value()),
            r matches Some(q) ==> q.value() == rir_value(
                *self,
                fraction_of_e1rm.value(),
                reps.value(),
            ),
    {
        match self.max_reps(fraction_of_e1rm) {
            Some(most) => Some(most.sub(reps)),
            None => None,
        }
    }

    /// Rating of perceived exertion: ten less the repetitions in reserve.
    /// `None` where the model divides by a fraction of zero.
    pub fn rpe(&self, fraction_of_e1rm: &Ratio, reps: &Ratio) -> (r: Option<Ratio>)
        ensures
            r.is_some() <==> maxreps_defined(*self, fraction_of_e1rm.value()),
            r matches Some(q) ==> q.value() == rpe_value(
                *self,
                fraction_of_e1rm.value(),
                reps.value(),
            ),
    {
        match self.rir(fraction_of_e1rm, reps) {
            Some(reserve) => Some(Ratio::from_i64(10).sub(&reserve)),
            None => None,
        }
    }

    /// The fraction of the one-repetition maximum at which `reps`
    /// repetitions are felt as `rpe`. `None` where the factor of the model
    /// at `reps + (10 - rpe)` has no value or is zero.
    pub fn fraction_of_e1rm_at_reps_and_rpe(&self, reps: &Ratio, rpe: &Ratio) -> (r: Option<Ratio>)
        ensures
            r.is_some() <==> fraction_defined(*self, reps.value(), rpe.value()),
            r matches Some(q) ==> q.value() == fraction_value(*self, reps.value(), rpe.value()),
    {
        let maxreps = reps.add(&Ratio::from_i64(10).sub(rpe));
        match self.e1rm_factor(&maxreps) {
            Some(factor) => Ratio::from_i64(1).div(&factor),
            None => None,
        }
    }

    /// The perceived exertion of a set of `reps` repetitions at the given
    /// fraction of the one-repetition maximum; the same number as `rpe`.
    pub fn estimated_set_rpe(&self, fraction_of_e1rm: &Ratio, reps: &Ratio) -> (r: Option<Ratio>)
        ensures
            r.is_some() <==> maxreps_defined(*self, fraction_of_e1rm.value()),
            r matches Some(q) ==> q.value() == rpe_value(
                *self,
                fraction_of_e1rm.value(),
                reps.value(),
            ),
    {
        match self.max_reps(fraction_of_e1rm) {
            Some(most) => Some(Ratio::from_i64(10).sub(&most.sub(reps))),
            None => None,
        }
    }
}

} // verus!
