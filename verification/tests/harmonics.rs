use nyx_space::dynamics::gravity::{Fill, Harmonics, Radical, Term};
use nyx_space::ratio::Ratio;

fn r(num: i64, den: i64) -> Ratio {
    Ratio { num, den }
}

fn root(x: Ratio) -> f64 {
    (x.num as f64 / x.den as f64).sqrt()
}

fn cell(fill: &Fill) -> (usize, usize) {
    match *fill {
        Fill::Seed => (0, 0),
        Fill::Diagonal { n, .. } => (n, n),
        Fill::SubDiagonal { n, .. } => (n + 1, n),
        Fill::Column { n, m, .. } => (n, m),
    }
}

fn reads(fill: &Fill) -> Vec<(usize, usize)> {
    match *fill {
        Fill::Seed => vec![],
        Fill::Diagonal { n, .. } => vec![(n - 1, n - 1)],
        Fill::SubDiagonal { n, .. } => vec![(n, n)],
        Fill::Column { n, m, .. } => vec![(n - 1, m), (n - 2, m)],
    }
}

fn table(model: &Harmonics<()>, u: f64) -> Vec<Vec<f64>> {
    let size = model.table_size();
    let mut a = vec![vec![0.0; size]; size];
    for fill in model.legendre_schedule() {
        match fill {
            Fill::Seed => a[0][0] = 1.0,
            Fill::Diagonal { n, scale } => a[n][n] = root(scale) * a[n - 1][n - 1],
            Fill::SubDiagonal { n, scale } => a[n + 1][n] = u * root(scale) * a[n][n],
            Fill::Column { n, m, up, back } => {
                a[n][m] = u * root(up) * a[n - 1][m] - root(back) * a[n - 2][m]
            }
        }
    }
    a
}

#[test]
fn extent_of_the_field() {
    let model = Harmonics::from_stor((), 70, 70);
    assert_eq!(model.degree(), 70);
    assert_eq!(model.order(), 70);
    assert_eq!(model.table_size(), 73);
    assert_eq!(model.longitude_powers(), 72);
    let model = Harmonics::from_stor((), 3, 10);
    assert_eq!(model.degree(), 3);
    assert_eq!(model.order(), 3);
    assert_eq!(model.longitude_powers(), 5);
    let model = Harmonics::from_stor((), 21, 4);
    assert_eq!(model.order(), 4);
    assert_eq!(model.table_size(), 24);
    let model = Harmonics::from_stor((), 0, 0);
    assert_eq!(model.table_size(), 3);
    assert_eq!(model.longitude_powers(), 2);
    let model = Harmonics::from_stor("coefficients", u16::MAX, u16::MAX);
    assert_eq!(model.stor, "coefficients");
    assert_eq!(model.table_size(), 65538);
    assert_eq!(model.longitude_powers(), 65537);
}

#[test]
fn schedule_of_degree_one() {
    let model = Harmonics::from_stor((), 1, 1);
    assert_eq!(
        model.legendre_schedule(),
        vec![
            Fill::Seed,
            Fill::Diagonal { n: 1, scale: r(3, 2) },
            Fill::Diagonal { n: 2, scale: r(5, 4) },
            Fill::Diagonal { n: 3, scale: r(7, 6) },
            Fill::SubDiagonal { n: 0, scale: r(3, 1) },
            Fill::SubDiagonal { n: 1, scale: r(5, 1) },
            Fill::SubDiagonal { n: 2, scale: r(7, 1) },
            Fill::Column { n: 2, m: 0, up: r(15, 4), back: r(5, 4) },
        ]
    );
}

#[test]
fn schedule_of_degree_zero_has_no_columns() {
    let model = Harmonics::from_stor((), 0, 0);
    assert_eq!(
        model.legendre_schedule(),
        vec![
            Fill::Seed,
            Fill::Diagonal { n: 1, scale: r(3, 2) },
            Fill::Diagonal { n: 2, scale: r(5, 4) },
            Fill::SubDiagonal { n: 0, scale: r(3, 1) },
            Fill::SubDiagonal { n: 1, scale: r(5, 1) },
        ]
    );
}

#[test]
fn columns_of_degree_three() {
    let model = Harmonics::from_stor((), 3, 1);
    let plan = model.legendre_schedule();
    // seed, 5 on the diagonal, 5 below it, then columns 0, 1 and 2
    assert_eq!(plan.len(), 1 + 5 + 5 + 3 + 2 + 1);
    assert_eq!(
        &plan[11..],
        &[
            Fill::Column { n: 2, m: 0, up: r(15, 4), back: r(5, 4) },
            Fill::Column { n: 3, m: 0, up: r(35, 9), back: r(28, 27) },
            Fill::Column { n: 4, m: 0, up: r(63, 16), back: r(81, 80) },
            Fill::Column { n: 3, m: 1, up: r(35, 8), back: r(21, 24) },
            Fill::Column { n: 4, m: 1, up: r(63, 15), back: r(72, 75) },
            Fill::Column { n: 4, m: 2, up: r(63, 12), back: r(45, 60) },
        ]
    );
    // The order of the field limits the columns: with order 0 the last is column 1.
    let plan = Harmonics::from_stor((), 3, 0).legendre_schedule();
    assert_eq!(plan.len(), 1 + 5 + 5 + 3 + 2);
    assert_eq!(plan.last(), Some(&Fill::Column { n: 4, m: 1, up: r(63, 15), back: r(72, 75) }));
}

#[test]
fn schedule_fills_below_the_diagonal_after_what_it_reads() {
    for (degree, order) in [(0u16, 0u16), (1, 0), (2, 2), (5, 2), (70, 70), (70, 3), (12, 40)] {
        let model = Harmonics::from_stor((), degree, order);
        let size = model.table_size();
        let mut filled = vec![vec![false; size]; size];
        for fill in model.legendre_schedule() {
            let (row, col) = cell(&fill);
            assert!(col <= row && row < size);
            assert!(!filled[row][col], "cell ({}, {}) twice", row, col);
            for (r, c) in reads(&fill) {
                assert!(filled[r][c], "cell ({}, {}) read before it is filled", r, c);
            }
            filled[row][col] = true;
        }
        // What the field sum reads is filled, or lies above the diagonal.
        for n in 1..=degree {
            let terms = model.terms(n);
            assert_eq!(terms.len(), usize::from(n.min(model.order())) + 1);
            for (m, term) in terms.iter().enumerate() {
                assert_eq!((term.n, term.m), (usize::from(n), m));
                assert!(filled[term.n][term.m]);
                assert!(filled[term.n + 1][term.m + 1]);
                assert!(filled[term.n][term.m + 1] || term.m + 1 > term.n);
            }
        }
    }
}

#[test]
fn table_is_zero_above_the_diagonal_and_positive_on_it() {
    let model = Harmonics::from_stor((), 70, 70);
    for u in [-1.0, -0.3, 0.0, 0.5, 0.999, 1.0] {
        let a = table(&model, u);
        for n in 0..73 {
            for m in 0..73 {
                if m > n {
                    assert_eq!(a[n][m], 0.0);
                }
            }
            assert!(a[n][n] > 0.0);
            if n > 0 {
                assert!(a[n][n] > a[n - 1][n - 1]);
            }
        }
    }
}

#[test]
fn table_holds_the_normalized_legendre_functions() {
    // Column 0 holds the normalized polynomials; the columns beyond it hold
    // the normalized functions, without their power of the cosine of the
    // latitude, over the square root of two.
    let model = Harmonics::from_stor((), 3, 3);
    let u: f64 = 0.3;
    let a = table(&model, u);
    let close = |x: f64, y: f64| (x - y).abs() < 1e-14;
    let sqrt2 = 2.0_f64.sqrt();
    assert_eq!(a[0][0], 1.0);
    assert!(close(a[1][0], 3.0_f64.sqrt() * u));
    assert!(close(a[1][1], 3.0_f64.sqrt() / sqrt2));
    assert!(close(a[2][0], 5.0_f64.sqrt() * (3.0 * u * u - 1.0) / 2.0));
    assert!(close(a[2][1], 15.0_f64.sqrt() * u / sqrt2));
    assert!(close(a[2][2], 15.0_f64.sqrt() / 2.0 / sqrt2));
    assert!(close(a[3][0], 7.0_f64.sqrt() * (5.0 * u.powi(3) - 3.0 * u) / 2.0));
    assert!(close(a[3][1], 42.0_f64.sqrt() * (5.0 * u * u - 1.0) / 4.0 / sqrt2));
}

#[test]
fn terms_carry_the_recursion_constants() {
    let model = Harmonics::from_stor((), 2, 2);
    let halved = |num: i64, den: i64| Radical { radicand: r(num, den), over_root_two: true };
    let plain = |num: i64, den: i64| Radical { radicand: r(num, den), over_root_two: false };
    assert_eq!(
        model.terms(1),
        vec![
            Term { n: 1, m: 0, vr01: halved(2, 1), vr11: halved(18, 5) },
            Term { n: 1, m: 1, vr01: plain(0, 1), vr11: plain(36, 5) },
        ]
    );
    assert_eq!(
        model.terms(2),
        vec![
            Term { n: 2, m: 0, vr01: halved(6, 1), vr11: halved(60, 7) },
            Term { n: 2, m: 1, vr01: plain(4, 1), vr11: plain(100, 7) },
            Term { n: 2, m: 2, vr01: plain(0, 1), vr11: plain(150, 7) },
        ]
    );
    assert_eq!(model.terms(0), vec![]);
    assert_eq!(model.terms(3), vec![]);
    assert_eq!(model.terms(u16::MAX), vec![]);
    // The order of the field limits the terms of a degree.
    let model = Harmonics::from_stor((), 5, 1);
    assert_eq!(model.terms(4).len(), 2);
    assert_eq!(model.terms(5).len(), 2);
    assert_eq!(model.terms(1).len(), 2);
    assert_eq!(model.terms(6).len(), 0);
}

#[test]
fn constants_stay_exact_at_the_largest_degree() {
    let model = Harmonics::from_stor((), u16::MAX, 0);
    let terms = model.terms(u16::MAX);
    assert_eq!(terms.len(), 1);
    let n: i64 = 65535;
    assert_eq!(terms[0].vr01.radicand, r(n * (n + 1), 1));
    assert_eq!(terms[0].vr11.radicand, r((2 * n + 1) * (n + 2) * (n + 1), 2 * n + 3));
    assert!(terms[0].vr01.over_root_two && terms[0].vr11.over_root_two);
}
