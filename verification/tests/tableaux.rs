use nyx_space::propagators::error_ctrl::RSSStep;
use nyx_space::propagators::{Dormand45, Fehlberg45, PropOpts, Propagator, RK4Fixed, Verner56, RK};
use nyx_space::ratio::Ratio;

fn value(r: &Ratio) -> f64 {
    r.num as f64 / r.den as f64
}

fn control<T: RK>() -> Propagator<RSSStep> {
    Propagator::new::<T>(&PropOpts::with_fixed_step(Ratio::whole(1), RSSStep {}))
}

fn check_shape<T: RK>(order: u8, stages: usize) {
    assert_eq!(T::order(), order);
    assert_eq!(T::stages(), stages);
    assert_eq!(T::a_coeffs().len(), stages * (stages - 1) / 2);
    let rows = if stages == usize::from(order) { 1 } else { 2 };
    assert_eq!(T::b_coeffs().len(), rows * stages);
    for r in T::a_coeffs().iter().chain(T::b_coeffs().iter()) {
        assert!(r.den > 0);
    }
}

/// The conditions for the orders one to four that do not involve products of
/// the matrix with itself beyond the second.
fn check_order_four(p: &Propagator<RSSStep>, embedded: bool) {
    let s = p.stages();
    let a: Vec<f64> = p.a_coeffs().iter().map(value).collect();
    let b: Vec<f64> = (0..s)
        .map(|i| {
            if embedded {
                value(&p.embedded_weight(i).unwrap())
            } else {
                value(&p.weight(i).unwrap())
            }
        })
        .collect();
    let row = |i: usize| {
        let (first, end) = p.stage_row(i).unwrap();
        &a[first..end]
    };
    let c: Vec<f64> = (0..s).map(|i| row(i).iter().sum()).collect();
    let ac: Vec<f64> = (0..s).map(|i| row(i).iter().zip(&c).map(|(x, y)| x * y).sum()).collect();
    let sum = |f: &dyn Fn(usize) -> f64| (0..s).map(|i| b[i] * f(i)).sum::<f64>();
    assert!((sum(&|_| 1.0) - 1.0).abs() < 1e-14);
    assert!((sum(&|i| c[i]) - 1.0 / 2.0).abs() < 1e-14);
    assert!((sum(&|i| c[i] * c[i]) - 1.0 / 3.0).abs() < 1e-14);
    assert!((sum(&|i| ac[i]) - 1.0 / 6.0).abs() < 1e-14);
    assert!((sum(&|i| c[i].powi(3)) - 1.0 / 4.0).abs() < 1e-14);
    assert!((sum(&|i| c[i] * ac[i]) - 1.0 / 8.0).abs() < 1e-14);
}

#[test]
fn tableaux_have_their_shapes() {
    check_shape::<RK4Fixed>(4, 4);
    check_shape::<Dormand45>(5, 7);
    check_shape::<Fehlberg45>(5, 6);
    check_shape::<Verner56>(6, 8);
}

#[test]
fn rk4_coefficients() {
    let half = Ratio { num: 1, den: 2 };
    let zero = Ratio { num: 0, den: 1 };
    let one = Ratio { num: 1, den: 1 };
    assert_eq!(RK4Fixed::a_coeffs(), vec![half, zero, half, zero, zero, one]);
    let sixth = Ratio { num: 1, den: 6 };
    let third = Ratio { num: 1, den: 3 };
    assert_eq!(RK4Fixed::b_coeffs(), vec![sixth, third, third, sixth]);
}

#[test]
fn dormand_prince_coefficients() {
    let a = Dormand45::a_coeffs();
    assert_eq!(a[0], Ratio { num: 1, den: 5 });
    assert_eq!(a[4], Ratio { num: -56, den: 15 });
    assert_eq!(a[9], Ratio { num: -212, den: 729 });
    assert_eq!(a[14], Ratio { num: -5103, den: 18656 });
    let b = Dormand45::b_coeffs();
    // The last row of the matrix is the row of weights of order five.
    assert_eq!(&a[15..21], &b[0..6]);
    assert_eq!(b[6], Ratio { num: 0, den: 1 });
    assert_eq!(b[7], Ratio { num: 5179, den: 57600 });
    assert_eq!(b[13], Ratio { num: 1, den: 40 });
}

#[test]
fn stage_rows_lie_one_after_the_other() {
    let p = control::<Verner56>();
    let mut next = 0;
    for i in 0..8 {
        let (first, end) = p.stage_row(i).unwrap();
        assert_eq!(first, next);
        assert_eq!(end - first, i);
        next = end;
    }
    assert_eq!(next, p.a_coeffs().len());
    assert_eq!(p.stage_row(8), None);
    assert_eq!(p.stage_row(usize::MAX), None);
    let p = control::<RK4Fixed>();
    assert_eq!(p.stage_row(0), Some((0, 0)));
    assert_eq!(p.stage_row(1), Some((0, 1)));
    assert_eq!(p.stage_row(2), Some((1, 3)));
    assert_eq!(p.stage_row(3), Some((3, 6)));
    assert_eq!(p.stage_row(4), None);
}

#[test]
fn weights_by_stage() {
    let p = control::<RK4Fixed>();
    assert_eq!(p.weight(0), Some(Ratio { num: 1, den: 6 }));
    assert_eq!(p.weight(3), Some(Ratio { num: 1, den: 6 }));
    assert_eq!(p.weight(4), None);
    for i in 0..5 {
        assert_eq!(p.embedded_weight(i), None);
    }
    let p = control::<Fehlberg45>();
    assert_eq!(p.weight(0), Some(Ratio { num: 16, den: 135 }));
    assert_eq!(p.weight(5), Some(Ratio { num: 2, den: 55 }));
    assert_eq!(p.weight(6), None);
    assert_eq!(p.embedded_weight(0), Some(Ratio { num: 25, den: 216 }));
    assert_eq!(p.embedded_weight(4), Some(Ratio { num: -1, den: 5 }));
    assert_eq!(p.embedded_weight(5), Some(Ratio { num: 0, den: 1 }));
    assert_eq!(p.embedded_weight(6), None);
}

#[test]
fn nodes_are_the_row_sums() {
    let expect = |p: &Propagator<RSSStep>, nodes: &[f64]| {
        let a: Vec<f64> = p.a_coeffs().iter().map(value).collect();
        for (i, c) in nodes.iter().enumerate() {
            let (first, end) = p.stage_row(i).unwrap();
            let sum: f64 = a[first..end].iter().sum();
            assert!((sum - c).abs() < 1e-14, "node {} is {}", i, sum);
        }
    };
    expect(&control::<RK4Fixed>(), &[0.0, 0.5, 0.5, 1.0]);
    expect(&control::<Dormand45>(), &[0.0, 0.2, 0.3, 0.8, 8.0 / 9.0, 1.0, 1.0]);
    expect(&control::<Fehlberg45>(), &[0.0, 0.25, 0.375, 12.0 / 13.0, 1.0, 0.5]);
    expect(
        &control::<Verner56>(),
        &[0.0, 1.0 / 6.0, 4.0 / 15.0, 2.0 / 3.0, 5.0 / 6.0, 1.0, 1.0 / 15.0, 1.0],
    );
}

#[test]
fn methods_meet_the_conditions_of_order_four() {
    check_order_four(&control::<RK4Fixed>(), false);
    check_order_four(&control::<Dormand45>(), false);
    check_order_four(&control::<Dormand45>(), true);
    check_order_four(&control::<Fehlberg45>(), false);
    check_order_four(&control::<Fehlberg45>(), true);
    check_order_four(&control::<Verner56>(), false);
    check_order_four(&control::<Verner56>(), true);
}
