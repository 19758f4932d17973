//! Bodyweight coefficients: multipliers that make lifts comparable across
//! bodyweights within a sex category.
use vstd::prelude::*;
use crate::Gender;
use crate::ratio::{decimal, Ratio};
use crate::util::{poly5, poly5_value, values};

verus! {

/// The coefficients of the classic Wilks polynomial, lowest degree first.
pub open spec fn wilks_table(gender: Gender) -> Seq<real> {
    match gender {
        Gender::Male => seq![
            decimal(-2160475144, 7),
            decimal(162606339, 7),
            decimal(-2388645, 9),
            decimal(-113732, 8),
            decimal(701863, 11),
            decimal(-1291, 11),
        ],
        Gender::Female => seq![
            decimal(59431747775582, 11),
            decimal(-2723842536447, 11),
            decimal(82112226871, 11),
            decimal(-930733913, 11),
            decimal(4731582, 11),
            decimal(-9054, 11),
        ],
    }
}

/// The coefficients of the 2020 Wilks polynomial, lowest degree first.
pub open spec fn wilks2020_table(gender: Gender) -> Seq<real> {
    match gender {
        Gender::Male => seq![
            decimal(4746178854, 8),
            decimal(8472061379, 9),
            decimal(7369410346, 11),
            decimal(-1395833811, 12),
            decimal(707665973070743, 20),
            decimal(-120804336482315, 22),
        ],
        Gender::Female => seq![
            decimal(-1254255398, 7),
            decimal(1371219419, 8),
            decimal(-3307250631, 11),
            decimal(-1050400051, 12),
            decimal(938773881462799, 19),
            decimal(-23334613884954, 21),
        ],
    }
}

/// The classic Wilks coefficient: 500 over the Wilks polynomial at `bodyweight`.
pub open spec fn wilks_value(gender: Gender, bodyweight: real) -> real {
    500real / poly5_value(wilks_table(gender), bodyweight)
}

/// The 2020 Wilks coefficient: 600 over the 2020 polynomial at `bodyweight`.
pub open spec fn wilks2020_value(gender: Gender, bodyweight: real) -> real {
    600real / poly5_value(wilks2020_table(gender), bodyweight)
}

/// The table of the classic Wilks polynomial for `gender`.
pub fn wilks_constants(gender: Gender) -> (r: [Ratio; 6])
    ensures
        values(r@) == wilks_table(gender),
{
    let r = match gender {
        Gender::Male => [
            Ratio::from_decimal(-2160475144, 7),
            Ratio::from_decimal(162606339, 7),
            Ratio::from_decimal(-2388645, 9),
            Ratio::from_decimal(-113732, 8),
            Ratio::from_decimal(701863, 11),
            Ratio::from_decimal(-1291, 11),
        ],
        Gender::Female => [
            Ratio::from_decimal(59431747775582, 11),
            Ratio::from_decimal(-2723842536447, 11),
            Ratio::from_decimal(82112226871, 11),
            Ratio::from_decimal(-930733913, 11),
            Ratio::from_decimal(4731582, 11),
            Ratio::from_decimal(-9054, 11),
        ],
    };
    assert(values(r@) =~= wilks_table(gender));
    r
}

/// The table of the 2020 Wilks polynomial for `gender`.
pub fn wilks2020_constants(gender: Gender) -> (r: [Ratio; 6])
    ensures
        values(r@) == wilks2020_table(gender),
{
    let r = match gender {
        Gender::Male => [
            Ratio::from_decimal(4746178854, 8),
            Ratio::from_decimal(8472061379, 9),
            Ratio::from_decimal(7369410346, 11),
            Ratio::from_decimal(-1395833811, 12),
            Ratio::from_decimal(707665973070743, 20),
            Ratio::from_decimal(-120804336482315, 22),
        ],
        Gender::Female => [
            Ratio::from_decimal(-1254255398, 7),
            Ratio::from_decimal(1371219419, 8),
            Ratio::from_decimal(-3307250631, 11),
            Ratio::from_decimal(-1050400051, 12),
            Ratio::from_decimal(938773881462799, 19),
            Ratio::from_decimal(-23334613884954, 21),
        ],
    };
    assert(values(r@) =~= wilks2020_table(gender));
    r
}

/// The classic Wilks coefficient of a lifter of the given bodyweight in
/// kilograms, or `None` where the polynomial is zero there.
pub fn wilks(gender: Gender, bodyweight: &Ratio) -> (r: Option<Ratio>)
    ensures
        r.is_some() <==> poly5_value(wilks_table(gender), bodyweight.value()) != 0real,
        r matches Some(q) ==> q.value() == wilks_value(gender, bodyweight.value()),
{
    let table = wilks_constants(gender);
    Ratio::from_i64(500).div(&poly5(&table, bodyweight))
}

/// The 2020 Wilks coefficient of a lifter of the given bodyweight in
/// kilograms, or `None` where the polynomial is zero there.
pub fn wilks2020(gender: Gender, bodyweight: &Ratio) -> (r: Option<Ratio>)
    ensures
        r.is_some() <==> poly5_value(wilks2020_table(gender), bodyweight.value()) != 0real,
        r matches Some(q) ==> q.value() == wilks2020_value(gender, bodyweight.value()),
{
    let table = wilks2020_constants(gender);
    Ratio::from_i64(600).div(&poly5(&table, bodyweight))
}

} // verus!
