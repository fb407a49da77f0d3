//! The embedded pair of Dormand and Prince.
use crate::propagators::butcher::{embedded_weights, node, total, weights};
use crate::propagators::triangle;
use crate::propagators::RK;
use crate::ratio::{Frac, Ratio};
use vstd::prelude::*;

verus! {

/// The pair of orders 5 and 4 of Dormand and Prince, with seven stages.  The
/// weights of order 5 advance the state; their difference to those of order 4
/// estimates the error.
///
/// ```text
///        0 |
///      1/5 | 1/5
///     3/10 | 3/40  9/40
///      4/5 | 44/45  -56/15  32/9
///      8/9 | 19372/6561  -25360/2187  64448/6561  -212/729
///        1 | 9017/3168  -355/33  46732/5247  49/176  -5103/18656
///        1 | 35/384  0  500/1113  125/192  -2187/6784  11/84
/// ---------+--------------------
///          | 35/384  0  500/1113  125/192  -2187/6784  11/84  0
///          | 5179/57600  0  7571/16695  393/640  -92097/339200  187/2100  1/40
/// ```
pub struct Dormand45 {}

impl RK for Dormand45 {
    open spec fn order_spec() -> u8 {
        5
    }

    open spec fn stages_spec() -> usize {
        7
    }

    open spec fn a_spec() -> Seq<Ratio> {
        seq![
            Ratio { num: 1, den: 5 },
            Ratio { num: 3, den: 40 },
            Ratio { num: 9, den: 40 },
            Ratio { num: 44, den: 45 },
            Ratio { num: -56i64, den: 15 },
            Ratio { num: 32, den: 9 },
            Ratio { num: 19372, den: 6561 },
            Ratio { num: -25360i64, den: 2187 },
            Ratio { num: 64448, den: 6561 },
            Ratio { num: -212i64, den: 729 },
            Ratio { num: 9017, den: 3168 },
            Ratio { num: -355i64, den: 33 },
            Ratio { num: 46732, den: 5247 },
            Ratio { num: 49, den: 176 },
            Ratio { num: -5103i64, den: 18656 },
            Ratio { num: 35, den: 384 },
            Ratio { num: 0, den: 1 },
            Ratio { num: 500, den: 1113 },
            Ratio { num: 125, den: 192 },
            Ratio { num: -2187i64, den: 6784 },
            Ratio { num: 11, den: 84 },
        ]
    }

    open spec fn b_spec() -> Seq<Ratio> {
        seq![
            Ratio { num: 35, den: 384 },
            Ratio { num: 0, den: 1 },
            Ratio { num: 500, den: 1113 },
            Ratio { num: 125, den: 192 },
            Ratio { num: -2187i64, den: 6784 },
            Ratio { num: 11, den: 84 },
            Ratio { num: 0, den: 1 },
            Ratio { num: 5179, den: 57600 },
            Ratio { num: 0, den: 1 },
            Ratio { num: 7571, den: 16695 },
            Ratio { num: 393, den: 640 },
            Ratio { num: -92097i64, den: 339200 },
            Ratio { num: 187, den: 2100 },
            Ratio { num: 1, den: 40 },
        ]
    }

    proof fn shape() {
        assert(triangle(7) == 21) by (nonlinear_arith);
    }

    fn order() -> (r: u8) {
        5
    }

    fn stages() -> (r: usize) {
        7
    }

    fn a_coeffs() -> (r: Vec<Ratio>) {
        vec![
            Ratio { num: 1, den: 5 },
            Ratio { num: 3, den: 40 },
            Ratio { num: 9, den: 40 },
            Ratio { num: 44, den: 45 },
            Ratio { num: -56, den: 15 },
            Ratio { num: 32, den: 9 },
            Ratio { num: 19372, den: 6561 },
            Ratio { num: -25360, den: 2187 },
            Ratio { num: 64448, den: 6561 },
            Ratio { num: -212, den: 729 },
            Ratio { num: 9017, den: 3168 },
            Ratio { num: -355, den: 33 },
            Ratio { num: 46732, den: 5247 },
            Ratio { num: 49, den: 176 },
            Ratio { num: -5103, den: 18656 },
            Ratio { num: 35, den: 384 },
            Ratio { num: 0, den: 1 },
            Ratio { num: 500, den: 1113 },
            Ratio { num: 125, den: 192 },
            Ratio { num: -2187, den: 6784 },
            Ratio { num: 11, den: 84 },
        ]
    }

    fn b_coeffs() -> (r: Vec<Ratio>) {
        vec![
            Ratio { num: 35, den: 384 },
            Ratio { num: 0, den: 1 },
            Ratio { num: 500, den: 1113 },
            Ratio { num: 125, den: 192 },
            Ratio { num: -2187, den: 6784 },
            Ratio { num: 11, den: 84 },
            Ratio { num: 0, den: 1 },
            Ratio { num: 5179, den: 57600 },
            Ratio { num: 0, den: 1 },
            Ratio { num: 7571, den: 16695 },
            Ratio { num: 393, den: 640 },
            Ratio { num: -92097, den: 339200 },
            Ratio { num: 187, den: 2100 },
            Ratio { num: 1, den: 40 },
        ]
    }
}

/// The nodes of the method, the sums of the rows of `a`, are
/// `0, 1/5, 3/10, 4/5, 8/9, 1, 1`.
pub proof fn lemma_dormand45_nodes()
    ensures
        node(Dormand45::a_spec(), 0).eqv(Frac::new(0, 1)),
        node(Dormand45::a_spec(), 1).eqv(Frac::new(1, 5)),
        node(Dormand45::a_spec(), 2).eqv(Frac::new(3, 10)),
        node(Dormand45::a_spec(), 3).eqv(Frac::new(4, 5)),
        node(Dormand45::a_spec(), 4).eqv(Frac::new(8, 9)),
        node(Dormand45::a_spec(), 5).eqv(Frac::new(1, 1)),
        node(Dormand45::a_spec(), 6).eqv(Frac::new(1, 1)),
{
    let a = Dormand45::a_spec();
    let zero = Frac::whole(0);
    reveal_with_fuel(total, 8);
    assert(triangle(1) == 0) by (nonlinear_arith);
    assert(triangle(2) == 1) by (nonlinear_arith);
    assert(triangle(3) == 3) by (nonlinear_arith);
    assert(triangle(4) == 6) by (nonlinear_arith);
    assert(triangle(5) == 10) by (nonlinear_arith);
    assert(triangle(6) == 15) by (nonlinear_arith);
    let c1 = node(a, 1);
    assert(c1.eqv(Frac::new(1, 5))) by (nonlinear_arith)
        requires
            zero == Frac::whole(0),
            c1 == zero
                .plus(Frac::new(1, 5)),
    ;
    let c2 = node(a, 2);
    assert(c2.eqv(Frac::new(3, 10))) by (nonlinear_arith)
        requires
            zero == Frac::whole(0),
            c2 == zero
                .plus(Frac::new(3, 40))
                .plus(Frac::new(9, 40)),
    ;
    let c3 = node(a, 3);
    assert(c3.eqv(Frac::new(4, 5))) by (nonlinear_arith)
        requires
            zero == Frac::whole(0),
            c3 == zero
                .plus(Frac::new(44, 45))
                .plus(Frac::new(-56, 15))
                .plus(Frac::new(32, 9)),
    ;
    let c4 = node(a, 4);
    assert(c4.eqv(Frac::new(8, 9))) by (nonlinear_arith)
        requires
            zero == Frac::whole(0),
            c4 == zero
                .plus(Frac::new(19372, 6561))
                .plus(Frac::new(-25360, 2187))
                .plus(Frac::new(64448, 6561))
                .plus(Frac::new(-212, 729)),
    ;
    let c5 = node(a, 5);
    assert(c5.eqv(Frac::new(1, 1))) by (nonlinear_arith)
        requires
            zero == Frac::whole(0),
            c5 == zero
                .plus(Frac::new(9017, 3168))
                .plus(Frac::new(-355, 33))
                .plus(Frac::new(46732, 5247))
                .plus(Frac::new(49, 176))
                .plus(Frac::new(-5103, 18656)),
    ;
    let c6 = node(a, 6);
    assert(c6.eqv(Frac::new(1, 1))) by (nonlinear_arith)
        requires
            zero == Frac::whole(0),
            c6 == zero
                .plus(Frac::new(35, 384))
                .plus(Frac::new(0, 1))
                .plus(Frac::new(500, 1113))
                .plus(Frac::new(125, 192))
                .plus(Frac::new(-2187, 6784))
                .plus(Frac::new(11, 84)),
    ;
}

/// The weights of the method add up to one, and so do those of the
/// embedded method: the error estimate of a constant derivative is zero.
pub proof fn lemma_dormand45_weights()
    ensures
        total(weights(Dormand45::b_spec(), 7), 7).eqv(Frac::whole(1)),
        total(embedded_weights(Dormand45::b_spec(), 7), 7).eqv(Frac::whole(1)),
{
    let b = Dormand45::b_spec();
    let zero = Frac::whole(0);
    reveal_with_fuel(total, 8);
    let t = total(weights(b, 7), 7);
    assert(t.eqv(Frac::whole(1))) by (nonlinear_arith)
        requires
            zero == Frac::whole(0),
            t == zero
                .plus(Frac::new(35, 384))
                .plus(Frac::new(0, 1))
                .plus(Frac::new(500, 1113))
                .plus(Frac::new(125, 192))
                .plus(Frac::new(-2187, 6784))
                .plus(Frac::new(11, 84))
                .plus(Frac::new(0, 1)),
    ;
    let e = total(embedded_weights(b, 7), 7);
    assert(e.eqv(Frac::whole(1))) by (nonlinear_arith)
        requires
            zero == Frac::whole(0),
            e == zero
                .plus(Frac::new(5179, 57600))
                .plus(Frac::new(0, 1))
                .plus(Frac::new(7571, 16695))
                .plus(Frac::new(393, 640))
                .plus(Frac::new(-92097, 339200))
                .plus(Frac::new(187, 2100))
                .plus(Frac::new(1, 40)),
    ;
}

} // verus!
