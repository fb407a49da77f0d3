//! The embedded pair of Verner.
use crate::propagators::butcher::{embedded_weights, node, total, weights};
use crate::propagators::triangle;
use crate::propagators::RK;
use crate::ratio::{Frac, Ratio};
use vstd::prelude::*;

verus! {

/// The pair of orders 6 and 5 of Verner, with eight stages.  The weights of
/// order 6 advance the state; their difference to those of order 5 estimates
/// the error.
///
/// ```text
///        0 |
///      1/6 | 1/6
///     4/15 | 4/75  16/75
///      2/3 | 5/6  -8/3  5/2
///      5/6 | -165/64  55/6  -425/64  85/96
///        1 | 12/5  -8  4015/612  -11/36  88/255
///     1/15 | -8263/15000  124/75  -643/680  -81/250  2484/10625  0
///        1 | 3501/1720  -300/43  297275/52632  -319/2322  24068/84065  0  3850/26703
/// ---------+--------------------
///          | 3/40  0  875/2244  23/72  264/1955  0  125/11592  43/616
///          | 13/160  0  2375/5984  5/16  12/85  3/44  0  0
/// ```
pub struct Verner56 {}

impl RK for Verner56 {
    open spec fn order_spec() -> u8 {
        6
    }

    open spec fn stages_spec() -> usize {
        8
    }

    open spec fn a_spec() -> Seq<Ratio> {
        seq![
            Ratio { num: 1, den: 6 },
            Ratio { num: 4, den: 75 },
            Ratio { num: 16, den: 75 },
            Ratio { num: 5, den: 6 },
            Ratio { num: -8i64, den: 3 },
            Ratio { num: 5, den: 2 },
            Ratio { num: -165i64, den: 64 },
            Ratio { num: 55, den: 6 },
            Ratio { num: -425i64, den: 64 },
            Ratio { num: 85, den: 96 },
            Ratio { num: 12, den: 5 },
            Ratio { num: -8i64, den: 1 },
            Ratio { num: 4015, den: 612 },
            Ratio { num: -11i64, den: 36 },
            Ratio { num: 88, den: 255 },
            Ratio { num: -8263i64, den: 15000 },
            Ratio { num: 124, den: 75 },
            Ratio { num: -643i64, den: 680 },
            Ratio { num: -81i64, den: 250 },
            Ratio { num: 2484, den: 10625 },
            Ratio { num: 0, den: 1 },
            Ratio { num: 3501, den: 1720 },
            Ratio { num: -300i64, den: 43 },
            Ratio { num: 297275, den: 52632 },
            Ratio { num: -319i64, den: 2322 },
            Ratio { num: 24068, den: 84065 },
            Ratio { num: 0, den: 1 },
            Ratio { num: 3850, den: 26703 },
        ]
    }

    open spec fn b_spec() -> Seq<Ratio> {
        seq![
            Ratio { num: 3, den: 40 },
            Ratio { num: 0, den: 1 },
            Ratio { num: 875, den: 2244 },
            Ratio { num: 23, den: 72 },
            Ratio { num: 264, den: 1955 },
            Ratio { num: 0, den: 1 },
            Ratio { num: 125, den: 11592 },
            Ratio { num: 43, den: 616 },
            Ratio { num: 13, den: 160 },
            Ratio { num: 0, den: 1 },
            Ratio { num: 2375, den: 5984 },
            Ratio { num: 5, den: 16 },
            Ratio { num: 12, den: 85 },
            Ratio { num: 3, den: 44 },
            Ratio { num: 0, den: 1 },
            Ratio { num: 0, den: 1 },
        ]
    }

    proof fn shape() {
        assert(triangle(8) == 28) by (nonlinear_arith);
    }

    fn order() -> (r: u8) {
        6
    }

    fn stages() -> (r: usize) {
        8
    }

    fn a_coeffs() -> (r: Vec<Ratio>) {
        vec![
            Ratio { num: 1, den: 6 },
            Ratio { num: 4, den: 75 },
            Ratio { num: 16, den: 75 },
            Ratio { num: 5, den: 6 },
            Ratio { num: -8, den: 3 },
            Ratio { num: 5, den: 2 },
            Ratio { num: -165, den: 64 },
            Ratio { num: 55, den: 6 },
            Ratio { num: -425, den: 64 },
            Ratio { num: 85, den: 96 },
            Ratio { num: 12, den: 5 },
            Ratio { num: -8, den: 1 },
            Ratio { num: 4015, den: 612 },
            Ratio { num: -11, den: 36 },
            Ratio { num: 88, den: 255 },
            Ratio { num: -8263, den: 15000 },
            Ratio { num: 124, den: 75 },
            Ratio { num: -643, den: 680 },
            Ratio { num: -81, den: 250 },
            Ratio { num: 2484, den: 10625 },
            Ratio { num: 0, den: 1 },
            Ratio { num: 3501, den: 1720 },
            Ratio { num: -300, den: 43 },
            Ratio { num: 297275, den: 52632 },
            Ratio { num: -319, den: 2322 },
            Ratio { num: 24068, den: 84065 },
            Ratio { num: 0, den: 1 },
            Ratio { num: 3850, den: 26703 },
        ]
    }

    fn b_coeffs() -> (r: Vec<Ratio>) {
        vec![
            Ratio { num: 3, den: 40 },
            Ratio { num: 0, den: 1 },
            Ratio { num: 875, den: 2244 },
            Ratio { num: 23, den: 72 },
            Ratio { num: 264, den: 1955 },
            Ratio { num: 0, den: 1 },
            Ratio { num: 125, den: 11592 },
            Ratio { num: 43, den: 616 },
            Ratio { num: 13, den: 160 },
            Ratio { num: 0, den: 1 },
            Ratio { num: 2375, den: 5984 },
            Ratio { num: 5, den: 16 },
            Ratio { num: 12, den: 85 },
            Ratio { num: 3, den: 44 },
            Ratio { num: 0, den: 1 },
            Ratio { num: 0, den: 1 },
        ]
    }
}

/// The nodes of the method, the sums of the rows of `a`, are
/// `0, 1/6, 4/15, 2/3, 5/6, 1, 1/15, 1`.
pub proof fn lemma_verner56_nodes()
    ensures
        node(Verner56::a_spec(), 0).eqv(Frac::new(0, 1)),
        node(Verner56::a_spec(), 1).eqv(Frac::new(1, 6)),
        node(Verner56::a_spec(), 2).eqv(Frac::new(4, 15)),
        node(Verner56::a_spec(), 3).eqv(Frac::new(2, 3)),
        node(Verner56::a_spec(), 4).eqv(Frac::new(5, 6)),
        node(Verner56::a_spec(), 5).eqv(Frac::new(1, 1)),
        node(Verner56::a_spec(), 6).eqv(Frac::new(1, 15)),
        node(Verner56::a_spec(), 7).eqv(Frac::new(1, 1)),
{
    let a = Verner56::a_spec();
    let zero = Frac::whole(0);
    reveal_with_fuel(total, 9);
    assert(triangle(1) == 0) by (nonlinear_arith);
    assert(triangle(2) == 1) by (nonlinear_arith);
    assert(triangle(3) == 3) by (nonlinear_arith);
    assert(triangle(4) == 6) by (nonlinear_arith);
    assert(triangle(5) == 10) by (nonlinear_arith);
    assert(triangle(6) == 15) by (nonlinear_arith);
    assert(triangle(7) == 21) by (nonlinear_arith);
    let c1 = node(a, 1);
    assert(c1.eqv(Frac::new(1, 6))) by (nonlinear_arith)
        requires
            zero == Frac::whole(0),
            c1 == zero
                .plus(Frac::new(1, 6)),
    ;
    let c2 = node(a, 2);
    assert(c2.eqv(Frac::new(4, 15))) by (nonlinear_arith)
        requires
            zero == Frac::whole(0),
            c2 == zero
                .plus(Frac::new(4, 75))
                .plus(Frac::new(16, 75)),
    ;
    let c3 = node(a, 3);
    assert(c3.eqv(Frac::new(2, 3))) by (nonlinear_arith)
        requires
            zero == Frac::whole(0),
            c3 == zero
                .plus(Frac::new(5, 6))
                .plus(Frac::new(-8, 3))
                .plus(Frac::new(5, 2)),
    ;
    let c4 = node(a, 4);
    assert(c4.eqv(Frac::new(5, 6))) by (nonlinear_arith)
        requires
            zero == Frac::whole(0),
            c4 == zero
                .plus(Frac::new(-165, 64))
                .plus(Frac::new(55, 6))
                .plus(Frac::new(-425, 64))
                .plus(Frac::new(85, 96)),
    ;
    let c5 = node(a, 5);
    assert(c5.eqv(Frac::new(1, 1))) by (nonlinear_arith)
        requires
            zero == Frac::whole(0),
            c5 == zero
                .plus(Frac::new(12, 5))
                .plus(Frac::new(-8, 1))
                .plus(Frac::new(4015, 612))
                .plus(Frac::new(-11, 36))
                .plus(Frac::new(88, 255)),
    ;
    let c6 = node(a, 6);
    assert(c6.eqv(Frac::new(1, 15))) by (nonlinear_arith)
        requires
            zero == Frac::whole(0),
            c6 == zero
                .plus(Frac::new(-8263, 15000))
                .plus(Frac::new(124, 75))
                .plus(Frac::new(-643, 680))
                .plus(Frac::new(-81, 250))
                .plus(Frac::new(2484, 10625))
                .plus(Frac::new(0, 1)),
    ;
    let c7 = node(a, 7);
    assert(c7.eqv(Frac::new(1, 1))) by (nonlinear_arith)
        requires
            zero == Frac::whole(0),
            c7 == zero
                .plus(Frac::new(3501, 1720))
                .plus(Frac::new(-300, 43))
                .plus(Frac::new(297275, 52632))
                .plus(Frac::new(-319, 2322))
                .plus(Frac::new(24068, 84065))
                .plus(Frac::new(0, 1))
                .plus(Frac::new(3850, 26703)),
    ;
}

/// The weights of the method add up to one, and so do those of the
/// embedded method: the error estimate of a constant derivative is zero.
pub proof fn lemma_verner56_weights()
    ensures
        total(weights(Verner56::b_spec(), 8), 8).eqv(Frac::whole(1)),
        total(embedded_weights(Verner56::b_spec(), 8), 8).eqv(Frac::whole(1)),
{
    let b = Verner56::b_spec();
    let zero = Frac::whole(0);
    reveal_with_fuel(total, 9);
    let t = total(weights(b, 8), 8);
    assert(t.eqv(Frac::whole(1))) by (nonlinear_arith)
        requires
            zero == Frac::whole(0),
            t == zero
                .plus(Frac::new(3, 40))
                .plus(Frac::new(0, 1))
                .plus(Frac::new(875, 2244))
                .plus(Frac::new(23, 72))
                .plus(Frac::new(264, 1955))
                .plus(Frac::new(0, 1))
                .plus(Frac::new(125, 11592))
                .plus(Frac::new(43, 616)),
    ;
    let e = total(embedded_weights(b, 8), 8);
    assert(e.eqv(Frac::whole(1))) by (nonlinear_arith)
        requires
            zero == Frac::whole(0),
            e == zero
                .plus(Frac::new(13, 160))
                .plus(Frac::new(0, 1))
                .plus(Frac::new(2375, 5984))
                .plus(Frac::new(5, 16))
                .plus(Frac::new(12, 85))
                .plus(Frac::new(3, 44))
                .plus(Frac::new(0, 1))
                .plus(Frac::new(0, 1)),
    ;
}

} // verus!
