//! Evaluation of polynomials of degree five.
use vstd::prelude::*;
use crate::ratio::Ratio;

verus! {

/// `x` raised to the power `k`.
spec fn power(x: real, k: nat) -> real
    decreases k,
{
    if k == 0 {
        1real
    } else {
        x * power(x, (k - 1) as nat)
    }
}

/// The sum of the first `n` terms `c[i] * x^i`.
spec fn partial_sum(c: Seq<real>, x: real, n: nat) -> real
    decreases n,
{
    if n == 0 {
        0real
    } else {
        partial_sum(c, x, (n - 1) as nat) + c[n - 1] * power(x, (n - 1) as nat)
    }
}

/// The polynomial `c[0] + c[1] x + c[2] x^2 + c[3] x^3 + c[4] x^4 + c[5] x^5`.
pub open spec fn poly5_value(c: Seq<real>, x: real) -> real {
    c[0] + c[1] * x + c[2] * (x * x) + c[3] * (x * x * x) + c[4] * (x * x * x * x) + c[5] * (x
        * x * x * x * x)
}

/// The values of a sequence of rational numbers.
pub open spec fn values(c: Seq<Ratio>) -> Seq<real> {
    Seq::new(c.len(), |i: int| c[i].value())
}

/// The sum of six terms is the polynomial written out.
proof fn lemma_partial_sum_six(c: Seq<real>, x: real)
    ensures
        partial_sum(c, x, 6) == poly5_value(c, x),
{
    reveal_with_fuel(partial_sum, 7);
    reveal_with_fuel(power, 6);
    let x2 = x * x;
    let x3 = x * x2;
    let x4 = x * x3;
    let x5 = x * x4;
    assert(power(x, 0) == 1real);
    assert(power(x, 1) == x) by (nonlinear_arith)
        requires
            power(x, 1) == x * 1real,
    ;
    assert(power(x, 2) == x2);
    assert(power(x, 3) == x3);
    assert(power(x, 4) == x4);
    assert(power(x, 5) == x5);
    assert(x3 == x * x * x && x4 == x * x * x * x && x5 == x * x * x * x * x)
        by (nonlinear_arith)
        requires
            x2 == x * x,
            x3 == x * x2,
            x4 == x * x3,
            x5 == x * x4,
    ;
    assert(c[0] * 1real == c[0]) by (nonlinear_arith);
}

/// Evaluates the polynomial with the six given coefficients, lowest degree
/// first, at `x`.
pub fn poly5(coefficients: &[Ratio; 6], x: &Ratio) -> (r: Ratio)
    ensures
        r.value() == poly5_value(values(coefficients@), x.value()),
{
    let ghost c = values(coefficients@);
    let mut acc = Ratio::from_i64(0);
    let mut pw = Ratio::from_i64(1);
    let mut i: usize = 0;
    while i < 6
        invariant
            i <= 6,
            c == values(coefficients@),
            pw.value() == power(x.value(), i as nat),
            acc.value() == partial_sum(c, x.value(), i as nat),
        decreases 6 - i,
    {
        let term = coefficients[i].mul(&pw);
        assert(c[i as int] == coefficients@[i as int].value());
        acc = acc.add(&term);
        pw = x.mul(&pw);
        i = i + 1;
    }
    proof {
        lemma_partial_sum_six(c, x.value());
    }
    acc
}

} // verus!
