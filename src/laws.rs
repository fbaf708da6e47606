//! Properties of the angle and duty mappings and of sweeps, stated over the
//! model that the controller's contracts use.
use vstd::prelude::*;
use vstd::arithmetic::div_mod::{
    lemma_div_is_ordered, lemma_div_multiples_vanish, lemma_fundamental_div_mod,
    lemma_mod_pos_bound,
};
use crate::model::{sweep_path, ServoModel};

verus! {

/// Mapping a degree of the span to a duty and back gives that degree, or
/// one less through integer truncation, whenever the duty range has at least
/// one step fewer than the span has degrees.
pub proof fn lemma_round_trip(m: ServoModel, degree: int)
    requires
        m.wf(),
        0 <= degree <= m.max_degree_rotation,
        m.max_duty - m.min_duty + 1 >= m.max_degree_rotation,
    ensures
        degree - 1 <= m.degree_of(m.duty_of(degree)) <= degree,
{
    let d = m.max_duty - m.min_duty;
    let r = m.max_degree_rotation;
    let x = d * degree;
    let q = x / r;
    let rem = x % r;
    lemma_fundamental_div_mod(x, r);
    lemma_mod_pos_bound(x, r);
    assert(0 <= q <= d) by (nonlinear_arith)
        requires
            x == r * q + rem,
            0 <= rem < r,
            x == d * degree,
            0 <= degree <= r,
            d > 0,
    ;
    assert(m.duty_of(degree) == m.min_duty + q);
    let y = q * r;
    let t = y / d;
    let s = y % d;
    lemma_fundamental_div_mod(y, d);
    lemma_mod_pos_bound(y, d);
    assert(m.degree_of(m.duty_of(degree)) == t);
    assert(degree - 1 <= t <= degree) by (nonlinear_arith)
        requires
            y == d * t + s,
            0 <= s < d,
            y == q * r,
            x == r * q + rem,
            0 <= rem < r,
            x == d * degree,
            d + 1 >= r,
            d > 0,
    ;
}

/// A larger degree never gives a smaller duty.
pub proof fn lemma_duty_monotone(m: ServoModel, a: int, b: int)
    requires
        m.wf(),
        0 <= a <= b <= m.max_degree_rotation,
    ensures
        m.duty_of(a) <= m.duty_of(b),
{
    let d = m.max_duty - m.min_duty;
    assert(d * a <= d * b) by (nonlinear_arith)
        requires
            a <= b,
            d > 0,
    ;
    lemma_div_is_ordered(d * a, d * b, m.max_degree_rotation);
}

/// The ends of the span map exactly onto the ends of the duty range.
pub proof fn lemma_duty_boundaries(m: ServoModel)
    requires
        m.wf(),
    ensures
        m.duty_of(0) == m.min_duty,
        m.duty_of(m.max_degree_rotation) == m.max_duty,
{
    let d = m.max_duty - m.min_duty;
    let r = m.max_degree_rotation;
    assert(d * 0 == 0);
    assert(d * r == r * d) by (nonlinear_arith);
    lemma_div_multiples_vanish(d, r);
}

/// A degree beyond the span gives the largest duty, never more.
pub proof fn lemma_duty_clamped(m: ServoModel, degree: int)
    requires
        m.wf(),
        degree > m.max_degree_rotation,
    ensures
        m.duty_of(degree) == m.max_duty,
{
    let d = m.max_duty - m.min_duty;
    let r = m.max_degree_rotation;
    assert(d * r <= d * degree) by (nonlinear_arith)
        requires
            r < degree,
            d > 0,
    ;
    assert(d * r == r * d) by (nonlinear_arith);
    lemma_div_multiples_vanish(d, r);
    lemma_div_is_ordered(d * r, d * degree, r);
}

/// A sweep upward from `from` to `goal` commits exactly `goal - from`
/// positions, one degree apart in increasing order, the last being `goal`.
pub proof fn lemma_sweep_convergence(from: int, goal: int)
    requires
        0 <= from <= goal,
    ensures
        sweep_path(from, goal).len() == goal - from,
        forall|i: int| 0 <= i < goal - from ==> #[trigger] sweep_path(from, goal)[i] == from + i + 1,
        forall|i: int, j: int|
            0 <= i < j < goal - from ==> #[trigger] sweep_path(from, goal)[i] < #[trigger] sweep_path(
                from,
                goal,
            )[j],
        from < goal ==> sweep_path(from, goal).last() == goal,
{
}

/// After one step of a sweep, what is left to do is the rest of the same
/// path: stepping repeatedly commits the path in order.
pub proof fn lemma_sweep_advances(from: int, goal: int)
    requires
        from != goal,
    ensures
        sweep_path(sweep_path(from, goal)[0], goal) == sweep_path(from, goal).drop_first(),
{
    assert(sweep_path(sweep_path(from, goal)[0], goal) =~= sweep_path(from, goal).drop_first());
}

} // verus!
