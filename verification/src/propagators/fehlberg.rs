//! The embedded pair of Fehlberg.
use crate::propagators::butcher::{embedded_weights, node, total, weights};
use crate::propagators::triangle;
use crate::propagators::RK;
use crate::ratio::{Frac, Ratio};
use vstd::prelude::*;

verus! {

/// The pair of orders 5 and 4 of Fehlberg, with six stages.  The weights of
/// order 5 advance the state; their difference to those of order 4 estimates
/// the error.
///
/// ```text
///        0 |
///      1/4 | 1/4
///      3/8 | 3/32  9/32
///    12/13 | 1932/2197  -7200/2197  7296/2197
///        1 | 439/216  -8  3680/513  -845/4104
///      1/2 | -8/27  2  -3544/2565  1859/4104  -11/40
/// ---------+--------------------
///          | 16/135  0  6656/12825  28561/56430  -9/50  2/55
///          | 25/216  0  1408/2565  2197/4104  -1/5  0
/// ```
pub struct Fehlberg45 {}

impl RK for Fehlberg45 {
    open spec fn order_spec() -> u8 {
        5
    }

    open spec fn stages_spec() -> usize {
        6
    }

    open spec fn a_spec() -> Seq<Ratio> {
        seq![
            Ratio { num: 1, den: 4 },
            Ratio { num: 3, den: 32 },
            Ratio { num: 9, den: 32 },
            Ratio { num: 1932, den: 2197 },
            Ratio { num: -7200i64, den: 2197 },
            Ratio { num: 7296, den: 2197 },
            Ratio { num: 439, den: 216 },
            Ratio { num: -8i64, den: 1 },
            Ratio { num: 3680, den: 513 },
            Ratio { num: -845i64, den: 4104 },
            Ratio { num: -8i64, den: 27 },
            Ratio { num: 2, den: 1 },
            Ratio { num: -3544i64, den: 2565 },
            Ratio { num: 1859, den: 4104 },
            Ratio { num: -11i64, den: 40 },
        ]
    }

    open spec fn b_spec() -> Seq<Ratio> {
        seq![
            Ratio { num: 16, den: 135 },
            Ratio { num: 0, den: 1 },
            Ratio { num: 6656, den: 12825 },
            Ratio { num: 28561, den: 56430 },
            Ratio { num: -9i64, den: 50 },
            Ratio { num: 2, den: 55 },
            Ratio { num: 25, den: 216 },
            Ratio { num: 0, den: 1 },
            Ratio { num: 1408, den: 2565 },
            Ratio { num: 2197, den: 4104 },
            Ratio { num: -1i64, den: 5 },
            Ratio { num: 0, den: 1 },
        ]
    }

    proof fn shape() {
        assert(triangle(6) == 15) by (nonlinear_arith);
    }

    fn order() -> (r: u8) {
        5
    }

    fn stages() -> (r: usize) {
        6
    }

    fn a_coeffs() -> (r: Vec<Ratio>) {
        vec![
            Ratio { num: 1, den: 4 },
            Ratio { num: 3, den: 32 },
            Ratio { num: 9, den: 32 },
            Ratio { num: 1932, den: 2197 },
            Ratio { num: -7200, den: 2197 },
            Ratio { num: 7296, den: 2197 },
            Ratio { num: 439, den: 216 },
            Ratio { num: -8, den: 1 },
            Ratio { num: 3680, den: 513 },
            Ratio { num: -845, den: 4104 },
            Ratio { num: -8, den: 27 },
            Ratio { num: 2, den: 1 },
            Ratio { num: -3544, den: 2565 },
            Ratio { num: 1859, den: 4104 },
            Ratio { num: -11, den: 40 },
        ]
    }

    fn b_coeffs() -> (r: Vec<Ratio>) {
        vec![
            Ratio { num: 16, den: 135 },
            Ratio { num: 0, den: 1 },
            Ratio { num: 6656, den: 12825 },
            Ratio { num: 28561, den: 56430 },
            Ratio { num: -9, den: 50 },
            Ratio { num: 2, den: 55 },
            Ratio { num: 25, den: 216 },
            Ratio { num: 0, den: 1 },
            Ratio { num: 1408, den: 2565 },
            Ratio { num: 2197, den: 4104 },
            Ratio { num: -1, den: 5 },
            Ratio { num: 0, den: 1 },
        ]
    }
}

/// The nodes of the method, the sums of the rows of `a`, are
/// `0, 1/4, 3/8, 12/13, 1, 1/2`.
pub proof fn lemma_fehlberg45_nodes()
    ensures
        node(Fehlberg45::a_spec(), 0).eqv(Frac::new(0, 1)),
        node(Fehlberg45::a_spec(), 1).eqv(Frac::new(1, 4)),
        node(Fehlberg45::a_spec(), 2).eqv(Frac::new(3, 8)),
        node(Fehlberg45::a_spec(), 3).eqv(Frac::new(12, 13)),
        node(Fehlberg45::a_spec(), 4).eqv(Frac::new(1, 1)),
        node(Fehlberg45::a_spec(), 5).eqv(Frac::new(1, 2)),
{
    let a = Fehlberg45::a_spec();
    let zero = Frac::whole(0);
    reveal_with_fuel(total, 7);
    assert(triangle(1) == 0) by (nonlinear_arith);
    assert(triangle(2) == 1) by (nonlinear_arith);
    assert(triangle(3) == 3) by (nonlinear_arith);
    assert(triangle(4) == 6) by (nonlinear_arith);
    assert(triangle(5) == 10) by (nonlinear_arith);
    let c1 = node(a, 1);
    assert(c1.eqv(Frac::new(1, 4))) by (nonlinear_arith)
        requires
            zero == Frac::whole(0),
            c1 == zero
                .plus(Frac::new(1, 4)),
    ;
    let c2 = node(a, 2);
    assert(c2.eqv(Frac::new(3, 8))) by (nonlinear_arith)
        requires
            zero == Frac::whole(0),
            c2 == zero
                .plus(Frac::new(3, 32))
                .plus(Frac::new(9, 32)),
    ;
    let c3 = node(a, 3);
    assert(c3.eqv(Frac::new(12, 13))) by (nonlinear_arith)
        requires
            zero == Frac::whole(0),
            c3 == zero
                .plus(Frac::new(1932, 2197))
                .plus(Frac::new(-7200, 2197))
                .plus(Frac::new(7296, 2197)),
    ;
    let c4 = node(a, 4);
    assert(c4.eqv(Frac::new(1, 1))) by (nonlinear_arith)
        requires
            zero == Frac::whole(0),
            c4 == zero
                .plus(Frac::new(439, 216))
                .plus(Frac::new(-8, 1))
                .plus(Frac::new(3680, 513))
                .plus(Frac::new(-845, 4104)),
    ;
    let c5 = node(a, 5);
    assert(c5.eqv(Frac::new(1, 2))) by (nonlinear_arith)
        requires
            zero == Frac::whole(0),
            c5 == zero
                .plus(Frac::new(-8, 27))
                .plus(Frac::new(2, 1))
                .plus(Frac::new(-3544, 2565))
                .plus(Frac::new(1859, 4104))
                .plus(Frac::new(-11, 40)),
    ;
}

/// The weights of the method add up to one, and so do those of the
/// embedded method: the error estimate of a constant derivative is zero.
pub proof fn lemma_fehlberg45_weights()
    ensures
        total(weights(Fehlberg45::b_spec(), 6), 6).eqv(Frac::whole(1)),
        total(embedded_weights(Fehlberg45::b_spec(), 6), 6).eqv(Frac::whole(1)),
{
    let b = Fehlberg45::b_spec();
    let zero = Frac::whole(0);
    reveal_with_fuel(total, 7);
    let t = total(weights(b, 6), 6);
    assert(t.eqv(Frac::whole(1))) by (nonlinear_arith)
        requires
            zero == Frac::whole(0),
            t == zero
                .plus(Frac::new(16, 135))
                .plus(Frac::new(0, 1))
                .plus(Frac::new(6656, 12825))
                .plus(Frac::new(28561, 56430))
                .plus(Frac::new(-9, 50))
                .plus(Frac::new(2, 55)),
    ;
    let e = total(embedded_weights(b, 6), 6);
    assert(e.eqv(Frac::whole(1))) by (nonlinear_arith)
        requires
            zero == Frac::whole(0),
            e == zero
                .plus(Frac::new(25, 216))
                .plus(Frac::new(0, 1))
                .plus(Frac::new(1408, 2565))
                .plus(Frac::new(2197, 4104))
                .plus(Frac::new(-1, 5))
                .plus(Frac::new(0, 1)),
    ;
}

} // verus!
