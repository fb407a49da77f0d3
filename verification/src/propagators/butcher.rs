//! What a Butcher tableau means, in exact arithmetic.
//!
//! Stages are counted from zero.  Stage `i` evaluates the derivative at
//! `x + h (a_i0 k_0 + .. + a_i,i-1 k_i-1)` and at the time `t + c_i h`, where
//! the node `c_i` is the sum of row `i`; the step adds
//! `h (b_0 k_0 + .. + b_s-1 k_s-1)` to the state.
use crate::propagators::triangle;
use crate::ratio::{Frac, Ratio};
use vstd::prelude::*;

verus! {

/// Row `i` of the matrix `a`: the coefficients `a_i0 .. a_i,i-1`.
pub open spec fn row(a: Seq<Ratio>, i: int) -> Seq<Frac> {
    Seq::new(i as nat, |j: int| a[triangle(i) + j]@)
}

/// The weights `b_0 .. b_s-1` of a method with `s` stages.
pub open spec fn weights(b: Seq<Ratio>, s: int) -> Seq<Frac> {
    Seq::new(s as nat, |i: int| b[i]@)
}

/// The weights `b*_0 .. b*_s-1` of the embedded method.
pub open spec fn embedded_weights(b: Seq<Ratio>, s: int) -> Seq<Frac> {
    Seq::new(s as nat, |i: int| b[s + i]@)
}

/// `w_0 x_0 + .. + w_n-1 x_n-1`
pub open spec fn dot(w: Seq<Frac>, x: Seq<Frac>, n: int) -> Frac
    decreases n,
{
    if n <= 0 {
        Frac::whole(0)
    } else {
        dot(w, x, n - 1).plus(w[n - 1].times(x[n - 1]))
    }
}

/// `x_0 + .. + x_n-1`
pub open spec fn total(x: Seq<Frac>, n: int) -> Frac
    decreases n,
{
    if n <= 0 {
        Frac::whole(0)
    } else {
        total(x, n - 1).plus(x[n - 1])
    }
}

/// The node `c_i`: the sum of row `i`.
pub open spec fn node(a: Seq<Ratio>, i: int) -> Frac {
    total(row(a, i), i)
}

/// The increments `K_0 .. K_n-1` of one step on the linear equation
/// `x' = lambda x` from `x = 1`, where `z = h lambda` and `K_i = h k_i`:
/// `K_i = z (1 + a_i0 K_0 + .. + a_i,i-1 K_i-1)`.
pub open spec fn linear_stages(a: Seq<Ratio>, z: Frac, n: int) -> Seq<Frac>
    decreases n,
{
    if n <= 0 {
        Seq::empty()
    } else {
        let before = linear_stages(a, z, n - 1);
        before.push(z.times(Frac::whole(1).plus(dot(row(a, n - 1), before, n - 1))))
    }
}

/// What one step with the weights `w` of a method with `s` stages makes of
/// `x = 1` on the linear equation `x' = lambda x`, for `z = h lambda`:
/// `1 + w_0 K_0 + .. + w_s-1 K_s-1`.
pub open spec fn linear_step(a: Seq<Ratio>, w: Seq<Frac>, s: int, z: Frac) -> Frac {
    Frac::whole(1).plus(dot(w, linear_stages(a, z, s), s))
}

/// `1 + z + z^2/2 + z^3/6 + z^4/24`: the expansion of `exp(z)` through the
/// fourth power, over the denominator `24 q^4` for `z = p / q`.
pub open spec fn exp_through_fourth(z: Frac) -> Frac {
    let p = z.num;
    let q = z.den;
    let cube = q * (q * q);
    Frac {
        num: 24 * (q * cube) + 24 * (p * cube) + 12 * (p * (p * (q * q))) + 4 * (p * ((p * p)
            * q)) + p * ((p * p) * p),
        den: 24 * (q * cube),
    }
}

} // verus!
