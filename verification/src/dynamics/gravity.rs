//! Spherical-harmonic gravity: the schedule of the normalized associated
//! Legendre recurrence and the exact recursion constants of the field sum.
//!
//! The table `A[n][m]` of Legendre values has `degree + 3` rows and columns.
//! It starts out as zeros and is filled cell by cell: the diagonal from
//! `A[0][0] = 1`, the first sub-diagonal from the diagonal, and every lower
//! cell of a column from the two cells above it.  Each coefficient of these
//! recurrences is the square root of a ratio of small integers; the ratios are
//! computed here exactly and the roots are left to whoever evaluates the
//! schedule.
use crate::ratio::Ratio;
use vstd::arithmetic::mul::{
    lemma_mul_nonnegative, lemma_mul_strictly_positive, lemma_mul_upper_bound,
};
use vstd::prelude::*;

verus! {

/// One assignment to a cell of the Legendre table.  `u` is the sine of the
/// latitude, the third direction cosine of the position.
#[derive(Clone, Copy, Debug, PartialEq, Eq, Structural)]
pub enum Fill {
    /// `A[0][0] = 1`
    Seed,
    /// `A[n][n] = sqrt(scale) * A[n-1][n-1]`
    Diagonal { n: usize, scale: Ratio },
    /// `A[n+1][n] = u * sqrt(scale) * A[n][n]`
    SubDiagonal { n: usize, scale: Ratio },
    /// `A[n][m] = u * sqrt(up) * A[n-1][m] - sqrt(back) * A[n-2][m]`
    Column { n: usize, m: usize, up: Ratio, back: Ratio },
}

impl Fill {
    /// Row of the cell that is assigned.
    pub open spec fn row(self) -> int {
        match self {
            Fill::Seed => 0,
            Fill::Diagonal { n, .. } => n as int,
            Fill::SubDiagonal { n, .. } => n + 1,
            Fill::Column { n, .. } => n as int,
        }
    }

    /// Column of the cell that is assigned.
    pub open spec fn col(self) -> int {
        match self {
            Fill::Seed => 0,
            Fill::Diagonal { n, .. } => n as int,
            Fill::SubDiagonal { n, .. } => n as int,
            Fill::Column { m, .. } => m as int,
        }
    }

    /// Whether the assignment reads cell `(r, c)`.
    pub open spec fn reads(self, r: int, c: int) -> bool {
        match self {
            Fill::Seed => false,
            Fill::Diagonal { n, .. } => r == n - 1 && c == n - 1,
            Fill::SubDiagonal { n, .. } => r == n && c == n,
            Fill::Column { n, m, .. } => c == m && (r == n - 1 || r == n - 2),
        }
    }

    /// Whether every ratio of the assignment has a square root.
    pub open spec fn has_roots(self) -> bool {
        match self {
            Fill::Seed => true,
            Fill::Diagonal { scale, .. } => has_root(scale),
            Fill::SubDiagonal { scale, .. } => has_root(scale),
            Fill::Column { up, back, .. } => has_root(up) && has_root(back),
        }
    }
}

/// Whether `r` is a number that has a square root: a ratio that is well
/// formed and not negative.
pub open spec fn has_root(r: Ratio) -> bool {
    r.den > 0 && r.num >= 0
}

/// `(2n + 1) / (2n)`: the squared ratio of two neighbours on the diagonal.
pub open spec fn diagonal_scale(n: int) -> Ratio {
    Ratio { num: (2 * n + 1) as i64, den: (2 * n) as i64 }
}

/// `2n + 3`: the squared factor between `A[n][n]` and `A[n+1][n] / u`.
pub open spec fn subdiagonal_scale(n: int) -> Ratio {
    Ratio { num: (2 * n + 3) as i64, den: 1 }
}

/// `(2n + 1)(2n - 1) / ((n - m)(n + m))`
pub open spec fn up_scale(n: int, m: int) -> Ratio {
    Ratio { num: ((2 * n + 1) * (2 * n - 1)) as i64, den: ((n - m) * (n + m)) as i64 }
}

/// `(2n + 1)(n - m - 1)(n + m - 1) / ((2n - 3)(n + m)(n - m))`
pub open spec fn back_scale(n: int, m: int) -> Ratio {
    Ratio {
        num: ((2 * n + 1) * (n - m - 1) * (n + m - 1)) as i64,
        den: ((2 * n - 3) * (n + m) * (n - m)) as i64,
    }
}

/// The assignment to `A[n][n]`.
pub open spec fn diagonal_fill(n: int) -> Fill {
    Fill::Diagonal { n: n as usize, scale: diagonal_scale(n) }
}

/// The assignment to `A[n+1][n]`.
pub open spec fn subdiagonal_fill(n: int) -> Fill {
    Fill::SubDiagonal { n: n as usize, scale: subdiagonal_scale(n) }
}

/// The assignment to `A[n][m]` for `n >= m + 2`.
pub open spec fn column_fill(n: int, m: int) -> Fill {
    Fill::Column { n: n as usize, m: m as usize, up: up_scale(n, m), back: back_scale(n, m) }
}

/// Number of cells of column `m` that the column recurrence fills: its rows
/// are `m + 2 ..= deg + 1`.
pub open spec fn column_len(deg: int, m: int) -> nat {
    if deg > m {
        (deg - m) as nat
    } else {
        0
    }
}

/// The fills of column `m`, top to bottom.
pub open spec fn column(deg: int, m: int) -> Seq<Fill> {
    Seq::new(column_len(deg, m), |k: int| column_fill(m + 2 + k, m))
}

/// The fills of columns `0 .. count`, one column after the other.
pub open spec fn columns(deg: int, count: int) -> Seq<Fill>
    decreases count,
{
    if count <= 0 {
        Seq::empty()
    } else {
        columns(deg, count - 1) + column(deg, count - 1)
    }
}

/// The whole schedule for a field of degree `deg` and order `ord`: the seed,
/// the diagonal down to row `deg + 2`, the first sub-diagonal down to row
/// `deg + 2`, then columns `0 ..= ord + 1`.
pub open spec fn schedule(deg: int, ord: int) -> Seq<Fill> {
    seq![Fill::Seed] + Seq::new((deg + 2) as nat, |k: int| diagonal_fill(k + 1)) + Seq::new(
        (deg + 2) as nat,
        |k: int| subdiagonal_fill(k),
    ) + columns(deg, ord + 2)
}

/// Whether the schedule of a field of degree `deg` and order `ord` assigns
/// cell `(r, c)`: the diagonal and the first sub-diagonal down to row
/// `deg + 2`, and the rest of columns `0 ..= ord + 1` down to row `deg + 1`.
pub open spec fn is_filled(deg: int, ord: int, r: int, c: int) -> bool {
    &&& 0 <= c <= r <= deg + 2
    &&& r <= c + 1 || (c <= ord + 1 && r <= deg + 1)
}

/// Where in the schedule cell `(r, c)` is assigned.
pub open spec fn position(deg: int, r: int, c: int) -> int {
    if r == c {
        r
    } else if r == c + 1 {
        deg + 3 + c
    } else {
        2 * deg + 5 + columns(deg, c).len() + (r - c - 2)
    }
}

/// The column to which entry `i` of `columns(deg, count)` belongs.
pub open spec fn column_of(deg: int, count: int, i: int) -> int
    decreases count,
{
    if count <= 0 {
        0
    } else if i >= columns(deg, count - 1).len() {
        count - 1
    } else {
        column_of(deg, count - 1, i)
    }
}

/// Adding columns leaves the fills of the earlier columns where they were.
pub proof fn lemma_columns_prefix(deg: int, c: int, c2: int)
    requires
        0 <= c <= c2,
    ensures
        columns(deg, c).len() <= columns(deg, c2).len(),
        forall|i: int| 0 <= i < columns(deg, c).len() ==> columns(deg, c2)[i] == columns(deg, c)[i],
    decreases c2 - c,
{
    if c < c2 {
        lemma_columns_prefix(deg, c, c2 - 1);
    }
}

/// Row `m + 2 + k` of column `m` is entry `columns(deg, m).len() + k`.
pub proof fn lemma_columns_entry(deg: int, count: int, m: int, k: int)
    requires
        0 <= m < count,
        0 <= k < column_len(deg, m),
    ensures
        columns(deg, m).len() + k < columns(deg, count).len(),
        columns(deg, count)[columns(deg, m).len() + k] == column_fill(m + 2 + k, m),
{
    lemma_columns_prefix(deg, m + 1, count);
    assert(columns(deg, m + 1) == columns(deg, m) + column(deg, m));
    assert(columns(deg, m + 1)[columns(deg, m).len() + k] == column(deg, m)[k]);
}

/// Every entry of `columns(deg, count)` lies in the column that `column_of`
/// names.
pub proof fn lemma_column_of(deg: int, count: int, i: int)
    requires
        0 <= i < columns(deg, count).len(),
    ensures
        0 <= column_of(deg, count, i) < count,
        columns(deg, column_of(deg, count, i)).len() <= i,
        i < columns(deg, column_of(deg, count, i)).len() + column_len(
            deg,
            column_of(deg, count, i),
        ),
    decreases count,
{
    if count > 0 && i < columns(deg, count - 1).len() {
        lemma_column_of(deg, count - 1, i);
    }
}

/// The schedule, entry by entry.
pub proof fn lemma_schedule_entry(deg: int, ord: int, k: int)
    requires
        0 <= deg,
        0 <= k < schedule(deg, ord).len(),
    ensures
        schedule(deg, ord).len() == 2 * deg + 5 + columns(deg, ord + 2).len(),
        k == 0 ==> schedule(deg, ord)[k] == Fill::Seed,
        1 <= k <= deg + 2 ==> schedule(deg, ord)[k] == diagonal_fill(k),
        deg + 3 <= k <= 2 * deg + 4 ==> schedule(deg, ord)[k] == subdiagonal_fill(k - deg - 3),
        2 * deg + 5 <= k ==> schedule(deg, ord)[k] == columns(deg, ord + 2)[k - 2 * deg - 5],
{
    let a = seq![Fill::Seed];
    let b = Seq::new((deg + 2) as nat, |k: int| diagonal_fill(k + 1));
    let c = Seq::new((deg + 2) as nat, |k: int| subdiagonal_fill(k));
    let d = columns(deg, ord + 2);
    assert(schedule(deg, ord) == a + b + c + d);
    assert(a.len() == 1);
    if 1 <= k <= deg + 2 {
        assert((a + b + c + d)[k] == b[k - 1]);
    } else if deg + 3 <= k <= 2 * deg + 4 {
        assert((a + b + c + d)[k] == c[k - deg - 3]);
    } else if 2 * deg + 5 <= k {
        assert((a + b + c + d)[k] == d[k - 2 * deg - 5]);
    }
}

/// The schedule assigns cell `(r, c)` at `position(deg, r, c)`.
pub proof fn lemma_position(deg: int, ord: int, r: int, c: int)
    requires
        0 <= ord <= deg <= u16::MAX,
        is_filled(deg, ord, r, c),
    ensures
        0 <= position(deg, r, c) < schedule(deg, ord).len(),
        schedule(deg, ord)[position(deg, r, c)].row() == r,
        schedule(deg, ord)[position(deg, r, c)].col() == c,
{
    if r > c + 1 {
        lemma_columns_entry(deg, ord + 2, c, r - c - 2);
    }
    let a = seq![Fill::Seed];
    let b = Seq::new((deg + 2) as nat, |k: int| diagonal_fill(k + 1));
    let d = Seq::new((deg + 2) as nat, |k: int| subdiagonal_fill(k));
    assert(schedule(deg, ord).len() == (a + b + d).len() + columns(deg, ord + 2).len());
    lemma_schedule_entry(deg, ord, position(deg, r, c));
}

/// Entry `k` of the schedule assigns a cell that `is_filled` admits, and
/// `position` leads back from that cell to `k`.
pub proof fn lemma_position_inverse(deg: int, ord: int, k: int)
    requires
        0 <= ord <= deg <= u16::MAX,
        0 <= k < schedule(deg, ord).len(),
    ensures
        is_filled(deg, ord, schedule(deg, ord)[k].row(), schedule(deg, ord)[k].col()),
        position(deg, schedule(deg, ord)[k].row(), schedule(deg, ord)[k].col()) == k,
{
    lemma_schedule_entry(deg, ord, k);
    if k >= 2 * deg + 5 {
        let i = k - (2 * deg + 5);
        lemma_column_of(deg, ord + 2, i);
        let m = column_of(deg, ord + 2, i);
        lemma_columns_entry(deg, ord + 2, m, i - columns(deg, m).len());
    }
}

/// No assignment of the schedule touches a cell above the diagonal or
/// outside the table: with the table zeroed beforehand, `A[n][m]` is zero
/// wherever `m > n`.
pub proof fn lemma_schedule_stays_below_diagonal(deg: int, ord: int, k: int)
    requires
        0 <= ord <= deg <= u16::MAX,
        0 <= k < schedule(deg, ord).len(),
    ensures
        0 <= schedule(deg, ord)[k].col() <= schedule(deg, ord)[k].row() <= deg + 2,
{
    lemma_position_inverse(deg, ord, k);
}

/// No cell is assigned twice.
pub proof fn lemma_schedule_fills_once(deg: int, ord: int, i: int, j: int)
    requires
        0 <= ord <= deg <= u16::MAX,
        0 <= i < schedule(deg, ord).len(),
        0 <= j < schedule(deg, ord).len(),
        schedule(deg, ord)[i].row() == schedule(deg, ord)[j].row(),
        schedule(deg, ord)[i].col() == schedule(deg, ord)[j].col(),
    ensures
        i == j,
{
    lemma_position_inverse(deg, ord, i);
    lemma_position_inverse(deg, ord, j);
}

/// Every cell that an assignment reads has been assigned earlier in the
/// schedule.
pub proof fn lemma_schedule_reads_earlier_fills(deg: int, ord: int, k: int, r: int, c: int)
    requires
        0 <= ord <= deg <= u16::MAX,
        0 <= k < schedule(deg, ord).len(),
        schedule(deg, ord)[k].reads(r, c),
    ensures
        0 <= position(deg, r, c) < k,
        schedule(deg, ord)[position(deg, r, c)].row() == r,
        schedule(deg, ord)[position(deg, r, c)].col() == c,
{
    lemma_position_inverse(deg, ord, k);
    let f = schedule(deg, ord)[k];
    assert(is_filled(deg, ord, r, c));
    lemma_position(deg, ord, r, c);
}

/// The ratios of the column recurrence are positive.
pub proof fn lemma_column_scales(n: int, m: int)
    requires
        0 <= m,
        m + 2 <= n <= MAX_INDEX,
    ensures
        up_scale(n, m).num > 0,
        up_scale(n, m).den > 0,
        back_scale(n, m).num > 0,
        back_scale(n, m).den > 0,
{
    lemma_mul_upper_bound(2 * n + 1, 131075, 2 * n - 1, 131075);
    lemma_mul_strictly_positive(2 * n + 1, 2 * n - 1);
    lemma_mul_upper_bound(n - m, 65537, n + m, 131074);
    lemma_mul_strictly_positive(n - m, n + m);
    lemma_mul_upper_bound(2 * n + 1, 131075, n - m - 1, 65536);
    lemma_mul_strictly_positive(2 * n + 1, n - m - 1);
    lemma_mul_upper_bound((2 * n + 1) * (n - m - 1), 131075int * 65536int, n + m - 1, 131073);
    lemma_mul_strictly_positive((2 * n + 1) * (n - m - 1), n + m - 1);
    lemma_mul_upper_bound(2 * n - 3, 131071, n + m, 131074);
    lemma_mul_strictly_positive(2 * n - 3, n + m);
    lemma_mul_upper_bound((2 * n - 3) * (n + m), 131071int * 131074int, n - m, 65537);
    lemma_mul_strictly_positive((2 * n - 3) * (n + m), n - m);
}

/// Every ratio in the schedule has a square root, so that each assignment
/// can be carried out.
pub proof fn lemma_schedule_has_roots(deg: int, ord: int, k: int)
    requires
        0 <= ord <= deg <= u16::MAX,
        0 <= k < schedule(deg, ord).len(),
    ensures
        schedule(deg, ord)[k].has_roots(),
{
    lemma_schedule_entry(deg, ord, k);
    if k >= 2 * deg + 5 {
        let i = k - (2 * deg + 5);
        lemma_column_of(deg, ord + 2, i);
        let m = column_of(deg, ord + 2, i);
        lemma_columns_entry(deg, ord + 2, m, i - columns(deg, m).len());
        lemma_column_scales(m + 2 + (i - columns(deg, m).len()), m);
    }
}

/// The recursion constants of a term have square roots.
pub proof fn lemma_term_has_roots(n: int, m: int)
    requires
        0 <= m <= n <= u16::MAX,
    ensures
        has_root(vr01(n, m).radicand),
        has_root(vr11(n, m).radicand),
{
    lemma_mul_upper_bound(n - m, 65537, n + m + 1, 131075);
    lemma_mul_nonnegative(n - m, n + m + 1);
    lemma_mul_upper_bound(2 * n + 1, 131075, n + m + 2, 131076);
    lemma_mul_nonnegative(2 * n + 1, n + m + 2);
    lemma_mul_upper_bound((2 * n + 1) * (n + m + 2), 131075int * 131076int, n + m + 1, 131075);
    lemma_mul_nonnegative((2 * n + 1) * (n + m + 2), n + m + 1);
}

/// Each factor along the diagonal exceeds one: `A[n][n]` is `A[n-1][n-1]`
/// times the root of a ratio whose numerator is larger than its positive
/// denominator.
pub proof fn lemma_diagonal_scale_exceeds_one(n: int)
    requires
        1 <= n <= MAX_INDEX,
    ensures
        diagonal_scale(n).num > diagonal_scale(n).den > 0,
{
}

/// A recursion constant of the field sum: the square root of `radicand`,
/// divided by the square root of two where `over_root_two` is set.
#[derive(Clone, Copy, Debug, PartialEq, Eq, Structural)]
pub struct Radical {
    pub radicand: Ratio,
    pub over_root_two: bool,
}

/// What the field sum needs for degree `n` and order `m` besides the
/// coefficients `C_nm`, `S_nm` and the table: with
/// `d = (C re[m] + S im[m]) sqrt(2)`, the term adds `vr01 * A[n][m+1] * d`
/// to the third partial sum and `vr11 * A[n+1][m+1] * d` to the fourth, and
/// `m * A[n][m]` times the two longitude derivatives to the first two.
#[derive(Clone, Copy, Debug, PartialEq, Eq, Structural)]
pub struct Term {
    pub n: usize,
    pub m: usize,
    pub vr01: Radical,
    pub vr11: Radical,
}

/// `sqrt((n - m)(n + m + 1))`, over `sqrt(2)` when `m` is zero.
pub open spec fn vr01(n: int, m: int) -> Radical {
    Radical {
        radicand: Ratio { num: ((n - m) * (n + m + 1)) as i64, den: 1 },
        over_root_two: m == 0,
    }
}

/// `sqrt((2n + 1)(n + m + 2)(n + m + 1) / (2n + 3))`, over `sqrt(2)` when `m`
/// is zero.
pub open spec fn vr11(n: int, m: int) -> Radical {
    Radical {
        radicand: Ratio {
            num: ((2 * n + 1) * (n + m + 2) * (n + m + 1)) as i64,
            den: (2 * n + 3) as i64,
        },
        over_root_two: m == 0,
    }
}

/// The term of degree `n` and order `m`.
pub open spec fn term(n: int, m: int) -> Term {
    Term { n: n as usize, m: m as usize, vr01: vr01(n, m), vr11: vr11(n, m) }
}

/// The terms of degree `n`, by rising order `m = 0 ..= min(n, ord)`.  There
/// are none for degree zero or beyond `deg`.
pub open spec fn terms_of(deg: int, ord: int, n: int) -> Seq<Term> {
    if 1 <= n <= deg {
        Seq::new((if n <= ord { n + 1 } else { ord + 1 }) as nat, |m: int| term(n, m))
    } else {
        Seq::empty()
    }
}

/// Of the three table cells that a term reads, `A[n][m]` and `A[n+1][m+1]`
/// are assigned by the schedule, and `A[n][m+1]` is assigned by it or lies
/// above the diagonal, where the table stays zero.  All three lie within
/// the table, and the powers of the longitude that the term reads, `m` and
/// `m - 1`, are among those that are kept.
pub proof fn lemma_terms_read_filled_cells(deg: int, ord: int, n: int, m: int)
    requires
        0 <= ord <= deg <= u16::MAX,
        0 <= m < terms_of(deg, ord, n).len(),
    ensures
        terms_of(deg, ord, n)[m] == term(n, m),
        is_filled(deg, ord, n, m),
        is_filled(deg, ord, n + 1, m + 1),
        is_filled(deg, ord, n, m + 1) || m + 1 > n,
        n + 1 < deg + 3,
        m + 1 < deg + 3,
        m < ord + 2,
{
}

/// The largest row or column index that a table of any degree can have.
pub const MAX_INDEX: usize = 65537;

/// Computes `diagonal_scale(n)`.
fn diagonal_scale_at(n: usize) -> (r: Ratio)
    requires
        1 <= n <= MAX_INDEX,
    ensures
        r == diagonal_scale(n as int),
        r.wf(),
{
    let k: i64 = n as i64;
    Ratio { num: 2 * k + 1, den: 2 * k }
}

/// Computes `subdiagonal_scale(n)`.
fn subdiagonal_scale_at(n: usize) -> (r: Ratio)
    requires
        n <= MAX_INDEX,
    ensures
        r == subdiagonal_scale(n as int),
        r.wf(),
{
    let k: i64 = n as i64;
    Ratio { num: 2 * k + 3, den: 1 }
}

/// Computes `up_scale(n, m)`.
fn up_scale_at(n: usize, m: usize) -> (r: Ratio)
    requires
        m + 2 <= n <= MAX_INDEX,
    ensures
        r == up_scale(n as int, m as int),
        r.wf(),
{
    let k: i64 = n as i64;
    let j: i64 = m as i64;
    proof {
        lemma_mul_upper_bound(2 * k + 1, 131075, 2 * k - 1, 131075);
        lemma_mul_upper_bound(k - j, 65537, k + j, 131074);
        lemma_mul_strictly_positive(k - j, k + j);
    }
    Ratio { num: (2 * k + 1) * (2 * k - 1), den: (k - j) * (k + j) }
}

/// Computes `back_scale(n, m)`.
fn back_scale_at(n: usize, m: usize) -> (r: Ratio)
    requires
        m + 2 <= n <= MAX_INDEX,
    ensures
        r == back_scale(n as int, m as int),
        r.wf(),
{
    let k: i64 = n as i64;
    let j: i64 = m as i64;
    proof {
        lemma_mul_upper_bound(2 * k + 1, 131075, k - j - 1, 65536);
        lemma_mul_nonnegative(2 * k + 1, k - j - 1);
        lemma_mul_upper_bound((2 * k + 1) * (k - j - 1), 131075int * 65536int, k + j - 1, 131073);
        lemma_mul_upper_bound(2 * k - 3, 131071, k + j, 131074);
        lemma_mul_strictly_positive(2 * k - 3, k + j);
        lemma_mul_upper_bound((2 * k - 3) * (k + j), 131071int * 131074int, k - j, 65537);
        lemma_mul_strictly_positive((2 * k - 3) * (k + j), k - j);
    }
    Ratio { num: (2 * k + 1) * (k - j - 1) * (k + j - 1), den: (2 * k - 3) * (k + j) * (k - j) }
}

/// Computes `vr01(n, m)`.
fn vr01_at(n: usize, m: usize) -> (r: Radical)
    requires
        m <= n <= MAX_INDEX,
    ensures
        r == vr01(n as int, m as int),
        r.radicand.wf(),
        r.radicand.num >= 0,
{
    let k: i64 = n as i64;
    let j: i64 = m as i64;
    proof {
        lemma_mul_upper_bound(k - j, 65537, k + j + 1, 131075);
        lemma_mul_nonnegative(k - j, k + j + 1);
    }
    Radical { radicand: Ratio { num: (k - j) * (k + j + 1), den: 1 }, over_root_two: m == 0 }
}

/// Computes `vr11(n, m)`.
fn vr11_at(n: usize, m: usize) -> (r: Radical)
    requires
        m <= n <= MAX_INDEX,
    ensures
        r == vr11(n as int, m as int),
        r.radicand.wf(),
        r.radicand.num >= 0,
{
    let k: i64 = n as i64;
    let j: i64 = m as i64;
    proof {
        lemma_mul_upper_bound(2 * k + 1, 131075, k + j + 2, 131076);
        lemma_mul_nonnegative(2 * k + 1, k + j + 2);
        lemma_mul_upper_bound((2 * k + 1) * (k + j + 2), 131075int * 131076int, k + j + 1, 131075);
        lemma_mul_nonnegative((2 * k + 1) * (k + j + 2), k + j + 1);
    }
    Radical {
        radicand: Ratio { num: (2 * k + 1) * (k + j + 2) * (k + j + 1), den: 2 * k + 3 },
        over_root_two: m == 0,
    }
}

/// Spherical-harmonic gravity of a body.  `stor` holds the normalized
/// coefficients `C_nm` and `S_nm`, which are populated up to the degree
/// `max_degree` and the order `max_order`.
#[derive(Clone, Copy, Debug)]
pub struct Harmonics<S> {
    pub stor: S,
    pub max_degree: u16,
    pub max_order: u16,
}

impl<S> Harmonics<S> {
    /// The degree `N` up to which the field is summed.
    pub open spec fn deg(&self) -> int {
        self.max_degree as int
    }

    /// The order `M` up to which the field is summed: the populated order,
    /// and never more than the degree.
    pub open spec fn ord(&self) -> int {
        if self.max_order <= self.max_degree {
            self.max_order as int
        } else {
            self.max_degree as int
        }
    }

    /// A harmonics model over the coefficients in `stor`, which are
    /// populated up to `max_degree` and `max_order`.
    pub fn from_stor(stor: S, max_degree: u16, max_order: u16) -> (h: Harmonics<S>)
        ensures
            h.stor == stor,
            h.max_degree == max_degree,
            h.max_order == max_order,
    {
        Harmonics { stor, max_degree, max_order }
    }

    /// The effective maximum degree.
    pub fn degree(&self) -> (n: u16)
        ensures
            n == self.deg(),
    {
        self.max_degree
    }

    /// The effective maximum order.
    pub fn order(&self) -> (m: u16)
        ensures
            m == self.ord(),
    {
        if self.max_order <= self.max_degree {
            self.max_order
        } else {
            self.max_degree
        }
    }

    /// Number of rows, and of columns, of the Legendre table.
    pub fn table_size(&self) -> (d: usize)
        ensures
            d == self.deg() + 3,
    {
        self.degree() as usize + 3
    }

    /// Number of powers of the complex longitude `(s + i t)^m` that the field
    /// sum and the table need: `m = 0 ..= M + 1`.
    pub fn longitude_powers(&self) -> (c: usize)
        ensures
            c == self.ord() + 2,
    {
        self.order() as usize + 2
    }

    /// The assignments that fill the Legendre table, in an order in which
    /// they can be carried out.
    pub fn legendre_schedule(&self) -> (plan: Vec<Fill>)
        ensures
            plan@ == schedule(self.deg(), self.ord()),
    {
        let deg: usize = self.degree() as usize;
        let ord: usize = self.order() as usize;
        let mut plan: Vec<Fill> = Vec::new();
        plan.push(Fill::Seed);
        let mut n: usize = 1;
        while n <= deg + 2
            invariant
                deg <= 65535,
                1 <= n <= deg + 3,
                plan@ == seq![Fill::Seed] + Seq::new((n - 1) as nat, |k: int| diagonal_fill(k + 1)),
            decreases deg + 3 - n,
        {
            plan.push(Fill::Diagonal { n, scale: diagonal_scale_at(n) });
            n += 1;
        }
        let ghost head = plan@;
        n = 0;
        while n <= deg + 1
            invariant
                deg <= 65535,
                n <= deg + 2,
                plan@ == head + Seq::new(n as nat, |k: int| subdiagonal_fill(k)),
            decreases deg + 2 - n,
        {
            plan.push(Fill::SubDiagonal { n, scale: subdiagonal_scale_at(n) });
            n += 1;
        }
        let ghost head = plan@;
        let mut m: usize = 0;
        while m <= ord + 1
            invariant
                deg <= 65535,
                ord <= deg,
                m <= ord + 2,
                plan@ == head + columns(deg as int, m as int),
            decreases ord + 2 - m,
        {
            let ghost before = plan@;
            n = m + 2;
            while n <= deg + 1
                invariant
                    deg <= 65535,
                    m <= deg + 1,
                    m + 2 <= n,
                    n <= deg + 2 || n == m + 2,
                    plan@ == before + Seq::new(
                        (n - m - 2) as nat,
                        |k: int| column_fill(m + 2 + k, m as int),
                    ),
                decreases deg + 2 - n,
            {
                plan.push(Fill::Column { n, m, up: up_scale_at(n, m), back: back_scale_at(n, m) });
                n += 1;
            }
            assert(plan@ == before + column(deg as int, m as int));
            assert(columns(deg as int, m + 1) == columns(deg as int, m as int) + column(
                deg as int,
                m as int,
            ));
            m += 1;
        }
        plan
    }
    /// The terms of degree `n` of the field sum, by rising order.
    pub fn terms(&self, n: u16) -> (list: Vec<Term>)
        ensures
            list@ == terms_of(self.deg(), self.ord(), n as int),
    {
        let mut list: Vec<Term> = Vec::new();
        if n == 0 || n > self.degree() {
            return list;
        }
        let ord = self.order();
        let last: usize = if n <= ord { n as usize } else { ord as usize };
        let mut m: usize = 0;
        while m <= last
            invariant
                1 <= n,
                last <= n,
                m <= last + 1,
                list@ == Seq::new(m as nat, |j: int| term(n as int, j)),
            decreases last + 1 - m,
        {
            let degree = n as usize;
            list.push(Term { n: degree, m, vr01: vr01_at(degree, m), vr11: vr11_at(degree, m) });
            m += 1;
        }
        list
    }
}

} // verus!
