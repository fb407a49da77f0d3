//! The classic fixed-step method of order four.
use crate::propagators::butcher::{
    dot, exp_through_fourth, linear_stages, linear_step, node, total, weights,
};
use crate::propagators::triangle;
use crate::propagators::RK;
use crate::ratio::{lemma_plus_over, lemma_times_over, Frac, Ratio};
use vstd::prelude::*;

verus! {

/// The Runge-Kutta method of order four with four stages.  It has no
/// embedded weights, and its steps are fixed.
///
/// ```text
///        0 |
///      1/2 | 1/2
///      1/2 | 0  1/2
///        1 | 0  0  1
/// ---------+--------------------
///          | 1/6  1/3  1/3  1/6
/// ```
pub struct RK4Fixed {}

impl RK for RK4Fixed {
    open spec fn order_spec() -> u8 {
        4
    }

    open spec fn stages_spec() -> usize {
        4
    }

    open spec fn a_spec() -> Seq<Ratio> {
        seq![
            Ratio { num: 1, den: 2 },
            Ratio { num: 0, den: 1 },
            Ratio { num: 1, den: 2 },
            Ratio { num: 0, den: 1 },
            Ratio { num: 0, den: 1 },
            Ratio { num: 1, den: 1 },
        ]
    }

    open spec fn b_spec() -> Seq<Ratio> {
        seq![
            Ratio { num: 1, den: 6 },
            Ratio { num: 1, den: 3 },
            Ratio { num: 1, den: 3 },
            Ratio { num: 1, den: 6 },
        ]
    }

    proof fn shape() {
        assert(triangle(4) == 6) by (nonlinear_arith);
    }

    fn order() -> (r: u8) {
        4
    }

    fn stages() -> (r: usize) {
        4
    }

    fn a_coeffs() -> (r: Vec<Ratio>) {
        vec![
            Ratio { num: 1, den: 2 },
            Ratio { num: 0, den: 1 },
            Ratio { num: 1, den: 2 },
            Ratio { num: 0, den: 1 },
            Ratio { num: 0, den: 1 },
            Ratio { num: 1, den: 1 },
        ]
    }

    fn b_coeffs() -> (r: Vec<Ratio>) {
        vec![
            Ratio { num: 1, den: 6 },
            Ratio { num: 1, den: 3 },
            Ratio { num: 1, den: 3 },
            Ratio { num: 1, den: 6 },
        ]
    }
}

/// The nodes of the method, the sums of the rows of `a`, are
/// `0, 1/2, 1/2, 1`.
pub proof fn lemma_rk4_nodes()
    ensures
        node(RK4Fixed::a_spec(), 0).eqv(Frac::new(0, 1)),
        node(RK4Fixed::a_spec(), 1).eqv(Frac::new(1, 2)),
        node(RK4Fixed::a_spec(), 2).eqv(Frac::new(1, 2)),
        node(RK4Fixed::a_spec(), 3).eqv(Frac::new(1, 1)),
{
    let a = RK4Fixed::a_spec();
    let zero = Frac::whole(0);
    reveal_with_fuel(total, 5);
    assert(triangle(1) == 0) by (nonlinear_arith);
    assert(triangle(2) == 1) by (nonlinear_arith);
    assert(triangle(3) == 3) by (nonlinear_arith);
    let c1 = node(a, 1);
    assert(c1.eqv(Frac::new(1, 2))) by (nonlinear_arith)
        requires
            zero == Frac::whole(0),
            c1 == zero
                .plus(Frac::new(1, 2)),
    ;
    let c2 = node(a, 2);
    assert(c2.eqv(Frac::new(1, 2))) by (nonlinear_arith)
        requires
            zero == Frac::whole(0),
            c2 == zero
                .plus(Frac::new(0, 1))
                .plus(Frac::new(1, 2)),
    ;
    let c3 = node(a, 3);
    assert(c3.eqv(Frac::new(1, 1))) by (nonlinear_arith)
        requires
            zero == Frac::whole(0),
            c3 == zero
                .plus(Frac::new(0, 1))
                .plus(Frac::new(0, 1))
                .plus(Frac::new(1, 1)),
    ;
}

/// The weights add up to one.
pub proof fn lemma_rk4_weights()
    ensures
        total(weights(RK4Fixed::b_spec(), 4), 4).eqv(Frac::whole(1)),
{
    let b = RK4Fixed::b_spec();
    let zero = Frac::whole(0);
    reveal_with_fuel(total, 5);
    let t = total(weights(b, 4), 4);
    assert(t.eqv(Frac::whole(1))) by (nonlinear_arith)
        requires
            zero == Frac::whole(0),
            t == zero
                .plus(Frac::new(1, 6))
                .plus(Frac::new(1, 3))
                .plus(Frac::new(1, 3))
                .plus(Frac::new(1, 6)),
    ;
}

/// Multiplying by `p / q` moves a sum of monomials up by one power: where
/// `p m_k = q m_k+1`, `p (a_0 m_0 + .. + a_3 m_3) = q (a_0 m_1 + .. + a_3 m_4)`.
proof fn lemma_shift(
    p: int,
    q: int,
    m0: int,
    m1: int,
    m2: int,
    m3: int,
    m4: int,
    a0: int,
    a1: int,
    a2: int,
    a3: int,
)
    requires
        p * m0 == q * m1,
        p * m1 == q * m2,
        p * m2 == q * m3,
        p * m3 == q * m4,
    ensures
        p * (a0 * m0 + a1 * m1 + a2 * m2 + a3 * m3) == q * (a0 * m1 + a1 * m2 + a2 * m3 + a3 * m4),
{
    lemma_shift_term(p, q, a0, m0, m1);
    lemma_shift_term(p, q, a1, m1, m2);
    lemma_shift_term(p, q, a2, m2, m3);
    lemma_shift_term(p, q, a3, m3, m4);
    lemma_distribute(p, a0 * m0, a1 * m1, a2 * m2, a3 * m3);
    lemma_distribute(q, a0 * m1, a1 * m2, a2 * m3, a3 * m4);
}

/// `p (a m) = q (a n)` where `p m = q n`.
proof fn lemma_shift_term(p: int, q: int, a: int, m: int, n: int)
    requires
        p * m == q * n,
    ensures
        p * (a * m) == q * (a * n),
{
    assert(p * (a * m) == a * (p * m)) by (nonlinear_arith);
    assert(q * (a * n) == a * (q * n)) by (nonlinear_arith);
}

/// `x (s + t + u + v) = x s + x t + x u + x v`
proof fn lemma_distribute(x: int, s: int, t: int, u: int, v: int)
    ensures
        x * (s + t + u + v) == x * s + x * t + x * u + x * v,
{
    assert(x * (s + t + u + v) == x * s + x * t + x * u + x * v) by (nonlinear_arith);
}

/// On a linear equation `x' = lambda x`, one step of the method multiplies
/// the state by `1 + z + z^2/2 + z^3/6 + z^4/24`, whatever `z = h lambda`
/// is: the step reproduces the expansion of the exact solution `exp(z)`
/// through the fourth order.
pub proof fn lemma_rk4_step_on_linear_equation(z: Frac)
    requires
        z.wf(),
    ensures
        linear_step(RK4Fixed::a_spec(), weights(RK4Fixed::b_spec(), 4), 4, z).eqv(
            exp_through_fourth(z),
        ),
{
    let a = RK4Fixed::a_spec();
    let b = RK4Fixed::b_spec();
    let zero = Frac::whole(0);
    let one = Frac::whole(1);
    let p = z.num;
    let q = z.den;
    // The monomials of degree four in `p` and `q`, and the common
    // denominator `24 q^4`.
    let (qq, pp) = (q * q, p * p);
    let cube = q * qq;
    let (m0, m1, m2) = (q * cube, p * cube, p * (p * qq));
    let (m3, m4) = (p * (pp * q), p * (pp * p));
    let d = 24 * m0;
    assert(p * (q * cube) == q * (p * cube)) by (nonlinear_arith);
    assert(p * (p * (q * qq)) == q * (p * (p * qq))) by (nonlinear_arith);
    assert(p * (p * (p * qq)) == q * (p * (pp * q))) by (nonlinear_arith)
        requires
            qq == q * q,
            pp == p * p,
    ;
    assert(p * (p * (pp * q)) == q * (p * (pp * p))) by (nonlinear_arith);
    assert(qq > 0 && cube > 0 && m0 > 0) by (nonlinear_arith)
        requires
            q > 0,
            qq == q * q,
            cube == q * qq,
            m0 == q * cube,
    ;
    assert(one.eqv(Frac::new(d, d)) && zero.eqv(Frac::new(0, d))) by (nonlinear_arith)
        requires
            one == Frac::whole(1),
            zero == Frac::whole(0),
    ;

    reveal_with_fuel(linear_stages, 5);
    reveal_with_fuel(dot, 5);
    assert(triangle(1) == 0 && triangle(2) == 1 && triangle(3) == 3) by (nonlinear_arith);
    let ks = linear_stages(a, z, 4);
    let (k0, k1, k2, k3) = (ks[0], ks[1], ks[2], ks[3]);
    let s1 = linear_stages(a, z, 1);
    let s2 = linear_stages(a, z, 2);
    let s3 = linear_stages(a, z, 3);
    assert(s1[0] == k0 && s2[0] == k0 && s3[0] == k0);
    assert(s2[1] == k1 && s3[1] == k1 && s3[2] == k2);
    // Increment 0.
    let w0 = one.plus(zero);
    lemma_plus_over(one, zero, d, 0, d);
    assert(k0 == z.times(w0));
    lemma_shift(p, q, m0, m1, m2, m3, m4, 24, 0, 0, 0);
    lemma_times_over(z, w0, p, q, d + 0, 24 * m1, d);
    // Increment 1.
    let t10 = Frac::new(1, 2).times(k0);
    lemma_times_over(Frac::new(1, 2), k0, 1, 2, 24 * m1, 12 * m1, d);
    let u10 = zero.plus(t10);
    lemma_plus_over(zero, t10, 0, 12 * m1, d);
    let w1 = one.plus(u10);
    lemma_plus_over(one, u10, d, 12 * m1, d);
    assert(k1 == z.times(w1));
    lemma_shift(p, q, m0, m1, m2, m3, m4, 24, 12, 0, 0);
    lemma_times_over(z, w1, p, q, d + 12 * m1, 24 * m1 + 12 * m2, d);
    // Increment 2.
    let t20 = Frac::new(0, 1).times(k0);
    lemma_times_over(Frac::new(0, 1), k0, 0, 1, 24 * m1, 0, d);
    let u20 = zero.plus(t20);
    lemma_plus_over(zero, t20, 0, 0, d);
    let t21 = Frac::new(1, 2).times(k1);
    lemma_times_over(Frac::new(1, 2), k1, 1, 2, 24 * m1 + 12 * m2, 12 * m1 + 6 * m2, d);
    let u21 = u20.plus(t21);
    lemma_plus_over(u20, t21, 0, 12 * m1 + 6 * m2, d);
    let w2 = one.plus(u21);
    lemma_plus_over(one, u21, d, 12 * m1 + 6 * m2, d);
    assert(k2 == z.times(w2));
    lemma_shift(p, q, m0, m1, m2, m3, m4, 24, 12, 6, 0);
    lemma_times_over(z, w2, p, q, d + 12 * m1 + 6 * m2, 24 * m1 + 12 * m2 + 6 * m3, d);
    // Increment 3.
    let t30 = Frac::new(0, 1).times(k0);
    lemma_times_over(Frac::new(0, 1), k0, 0, 1, 24 * m1, 0, d);
    let u30 = zero.plus(t30);
    lemma_plus_over(zero, t30, 0, 0, d);
    let t31 = Frac::new(0, 1).times(k1);
    lemma_times_over(Frac::new(0, 1), k1, 0, 1, 24 * m1 + 12 * m2, 0, d);
    let u31 = u30.plus(t31);
    lemma_plus_over(u30, t31, 0, 0, d);
    let t32 = Frac::new(1, 1).times(k2);
    lemma_times_over(
        Frac::new(1, 1),
        k2,
        1,
        1,
        24 * m1 + 12 * m2 + 6 * m3,
        24 * m1 + 12 * m2 + 6 * m3,
        d,
    );
    let u32 = u31.plus(t32);
    lemma_plus_over(u31, t32, 0, 24 * m1 + 12 * m2 + 6 * m3, d);
    let w3 = one.plus(u32);
    lemma_plus_over(one, u32, d, 24 * m1 + 12 * m2 + 6 * m3, d);
    assert(k3 == z.times(w3));
    lemma_shift(p, q, m0, m1, m2, m3, m4, 24, 24, 12, 6);
    lemma_times_over(
        z,
        w3,
        p,
        q,
        d + 24 * m1 + 12 * m2 + 6 * m3,
        24 * m1 + 24 * m2 + 12 * m3 + 6 * m4,
        d,
    );
    // The step.
    let t0 = Frac::new(1, 6).times(k0);
    lemma_times_over(Frac::new(1, 6), k0, 1, 6, 24 * m1, 4 * m1, d);
    let u0 = zero.plus(t0);
    lemma_plus_over(zero, t0, 0, 4 * m1, d);
    let t1 = Frac::new(1, 3).times(k1);
    lemma_times_over(Frac::new(1, 3), k1, 1, 3, 24 * m1 + 12 * m2, 8 * m1 + 4 * m2, d);
    let u1 = u0.plus(t1);
    lemma_plus_over(u0, t1, 4 * m1, 8 * m1 + 4 * m2, d);
    let t2 = Frac::new(1, 3).times(k2);
    lemma_times_over(
        Frac::new(1, 3),
        k2,
        1,
        3,
        24 * m1 + 12 * m2 + 6 * m3,
        8 * m1 + 4 * m2 + 2 * m3,
        d,
    );
    let u2 = u1.plus(t2);
    lemma_plus_over(u1, t2, 12 * m1 + 4 * m2, 8 * m1 + 4 * m2 + 2 * m3, d);
    let t3 = Frac::new(1, 6).times(k3);
    lemma_times_over(
        Frac::new(1, 6),
        k3,
        1,
        6,
        24 * m1 + 24 * m2 + 12 * m3 + 6 * m4,
        4 * m1 + 4 * m2 + 2 * m3 + m4,
        d,
    );
    let u3 = u2.plus(t3);
    lemma_plus_over(u2, t3, 20 * m1 + 8 * m2 + 2 * m3, 4 * m1 + 4 * m2 + 2 * m3 + m4, d);
    assert(linear_step(a, weights(b, 4), 4, z) == one.plus(u3));
    lemma_plus_over(one, u3, d, 24 * m1 + 12 * m2 + 4 * m3 + m4, d);
}

} // verus!
