//! Exact rational numbers, used wherever a coefficient or a bound has to be
//! stated without rounding.
use vstd::prelude::*;

verus! {

/// How a first number stands to a second one, as a comparison of the two
/// reports it.  `Unordered` is what comes of comparing with a value that is
/// not a number.
#[derive(Clone, Copy, Debug, PartialEq, Eq, Structural)]
pub enum Relation {
    Less,
    Equal,
    Greater,
    Unordered,
}

impl Relation {
    /// `a <= b`
    pub open spec fn at_most(self) -> bool {
        self == Relation::Less || self == Relation::Equal
    }
}

/// The mathematical value of a fraction: a numerator over a positive
/// denominator, both unbounded.
pub struct Frac {
    pub num: int,
    pub den: int,
}

impl Frac {
    /// `num / den`
    pub open spec fn new(num: int, den: int) -> Frac {
        Frac { num, den }
    }

    /// `n / 1`
    pub open spec fn whole(n: int) -> Frac {
        Frac { num: n, den: 1 }
    }

    /// A fraction is well formed when its denominator is positive.  The
    /// comparisons below compare the values of well-formed fractions.
    pub open spec fn wf(self) -> bool {
        self.den > 0
    }

    /// Equality of values, by cross multiplication.
    pub open spec fn eqv(self, o: Frac) -> bool {
        self.num * o.den == o.num * self.den
    }

    /// `self <= o`, by cross multiplication.
    pub open spec fn le(self, o: Frac) -> bool {
        self.num * o.den <= o.num * self.den
    }

    /// `self < o`, by cross multiplication.
    pub open spec fn lt(self, o: Frac) -> bool {
        self.num * o.den < o.num * self.den
    }

    /// How `self` stands to `o`.
    pub open spec fn relation(self, o: Frac) -> Relation {
        if self.lt(o) {
            Relation::Less
        } else if self.eqv(o) {
            Relation::Equal
        } else {
            Relation::Greater
        }
    }

    /// `self + o`, not reduced.
    pub open spec fn plus(self, o: Frac) -> Frac {
        Frac { num: self.num * o.den + o.num * self.den, den: self.den * o.den }
    }

    /// `self * o`, not reduced.
    pub open spec fn times(self, o: Frac) -> Frac {
        Frac { num: self.num * o.num, den: self.den * o.den }
    }
}

/// `(a b)(c d) = (a c)(b d)`
pub proof fn lemma_mul_interchange(a: int, b: int, c: int, d: int)
    ensures
        (a * b) * (c * d) == (a * c) * (b * d),
{
    assert((a * b) * (c * d) == (a * c) * (b * d)) by (nonlinear_arith);
}

/// Two fractions that equal a third, well-formed one are equal.
pub proof fn lemma_eqv_transitive(a: Frac, b: Frac, c: Frac)
    requires
        b.wf(),
        a.eqv(b),
        b.eqv(c),
    ensures
        a.eqv(c),
{
    let (an, ad, bn, bd, cn, cd) = (a.num, a.den, b.num, b.den, c.num, c.den);
    // (an cd) bd = (an bd) cd = (bn ad) cd = (bn cd) ad = (cn bd) ad = (cn ad) bd
    assert((an * cd) * bd == (an * bd) * cd) by (nonlinear_arith);
    assert((bn * ad) * cd == (bn * cd) * ad) by (nonlinear_arith);
    assert((cn * bd) * ad == (cn * ad) * bd) by (nonlinear_arith);
    let left = an * cd;
    let right = cn * ad;
    assert(left * bd == right * bd);
    assert(left == right) by (nonlinear_arith)
        requires
            left * bd == right * bd,
            bd > 0,
    ;
}

/// Equal summands give equal sums.
pub proof fn lemma_plus_respects_eqv(a: Frac, a2: Frac, b: Frac, b2: Frac)
    requires
        a.eqv(a2),
        b.eqv(b2),
    ensures
        a.plus(b).eqv(a2.plus(b2)),
{
    let (an, ad, bn, bd) = (a.num, a.den, b.num, b.den);
    let (xn, xd, yn, yd) = (a2.num, a2.den, b2.num, b2.den);
    lemma_mul_interchange(an, bd, xd, yd);
    lemma_mul_interchange(xn, yd, ad, bd);
    assert((bn * ad) * (xd * yd) == (bn * yd) * (ad * xd)) by (nonlinear_arith);
    assert((yn * xd) * (ad * bd) == (yn * bd) * (ad * xd)) by (nonlinear_arith);
    let (s, t, u, v) = (an * bd, bn * ad, xn * yd, yn * xd);
    let (m, n) = (xd * yd, ad * bd);
    assert((s + t) * m == s * m + t * m) by (nonlinear_arith);
    assert((u + v) * n == u * n + v * n) by (nonlinear_arith);
}

/// Equal factors give equal products.
pub proof fn lemma_times_respects_eqv(a: Frac, a2: Frac, b: Frac, b2: Frac)
    requires
        a.eqv(a2),
        b.eqv(b2),
    ensures
        a.times(b).eqv(a2.times(b2)),
{
    let (an, ad, bn, bd) = (a.num, a.den, b.num, b.den);
    let (xn, xd, yn, yd) = (a2.num, a2.den, b2.num, b2.den);
    lemma_mul_interchange(an, bn, xd, yd);
    lemma_mul_interchange(xn, yn, ad, bd);
}

/// Two fractions over one denominator add by their numerators.
pub proof fn lemma_plus_over(x: Frac, y: Frac, nx: int, ny: int, d: int)
    requires
        d > 0,
        x.eqv(Frac::new(nx, d)),
        y.eqv(Frac::new(ny, d)),
    ensures
        x.plus(y).eqv(Frac::new(nx + ny, d)),
{
    let sum = Frac::new(nx, d).plus(Frac::new(ny, d));
    lemma_plus_respects_eqv(x, Frac::new(nx, d), y, Frac::new(ny, d));
    assert(sum.num == nx * d + ny * d && sum.den == d * d);
    assert((nx * d + ny * d) * d == (nx + ny) * (d * d)) by (nonlinear_arith);
    assert(d * d > 0) by (nonlinear_arith)
        requires
            d > 0,
    ;
    lemma_eqv_transitive(x.plus(y), sum, Frac::new(nx + ny, d));
}

/// The product of `cn / cd` and a fraction `nx / d` is `nr / d` where
/// `cn nx = cd nr`.
pub proof fn lemma_times_over(c: Frac, x: Frac, cn: int, cd: int, nx: int, nr: int, d: int)
    requires
        d > 0,
        cd > 0,
        c == Frac::new(cn, cd),
        x.eqv(Frac::new(nx, d)),
        cn * nx == cd * nr,
    ensures
        c.times(x).eqv(Frac::new(nr, d)),
{
    let product = c.times(Frac::new(nx, d));
    lemma_times_respects_eqv(c, c, x, Frac::new(nx, d));
    assert(product.num == cn * nx && product.den == cd * d);
    assert((cd * nr) * d == nr * (cd * d)) by (nonlinear_arith);
    assert(cd * d > 0) by (nonlinear_arith)
        requires
            cd > 0,
            d > 0,
    ;
    lemma_eqv_transitive(c.times(x), product, Frac::new(nr, d));
}

/// A rational number `num / den` held in machine integers.
#[derive(Clone, Copy, Debug, PartialEq, Eq, Structural)]
pub struct Ratio {
    pub num: i64,
    pub den: i64,
}

impl View for Ratio {
    type V = Frac;

    open spec fn view(&self) -> Frac {
        Frac { num: self.num as int, den: self.den as int }
    }
}

impl Ratio {
    /// A ratio is well formed when its denominator is positive.
    pub open spec fn wf(self) -> bool {
        self.den > 0
    }

    /// The ratio `num / den`, or `None` when `den` is not positive.
    pub fn new(num: i64, den: i64) -> (r: Option<Ratio>)
        ensures
            r == (if den > 0 { Some(Ratio { num, den }) } else { None::<Ratio> }),
    {
        if den > 0 {
            Some(Ratio { num, den })
        } else {
            None
        }
    }

    /// The whole number `n`.
    pub fn whole(n: i64) -> (r: Ratio)
        ensures
            r == (Ratio { num: n, den: 1 }),
            r.wf(),
            r@ == Frac::whole(n as int),
    {
        Ratio { num: n, den: 1 }
    }

    /// Whether `self` and `other` denote the same number.
    pub fn same_value(&self, other: &Ratio) -> (b: bool)
        ensures
            b == self@.eqv(other@),
    {
        proof {
            lemma_cross_product_fits(self.num, other.den);
            lemma_cross_product_fits(other.num, self.den);
        }
        (self.num as i128) * (other.den as i128) == (other.num as i128) * (self.den as i128)
    }

    /// How `self` stands to `other`.
    pub fn relation(&self, other: &Ratio) -> (r: Relation)
        ensures
            r == self@.relation(other@),
    {
        proof {
            lemma_cross_product_fits(self.num, other.den);
            lemma_cross_product_fits(other.num, self.den);
        }
        let left = (self.num as i128) * (other.den as i128);
        let right = (other.num as i128) * (self.den as i128);
        if left < right {
            Relation::Less
        } else if left == right {
            Relation::Equal
        } else {
            Relation::Greater
        }
    }

    /// Whether `self` is at most `other`.
    pub fn at_most(&self, other: &Ratio) -> (b: bool)
        ensures
            b == self@.le(other@),
    {
        proof {
            lemma_cross_product_fits(self.num, other.den);
            lemma_cross_product_fits(other.num, self.den);
        }
        (self.num as i128) * (other.den as i128) <= (other.num as i128) * (self.den as i128)
    }
}

/// The product of two 64-bit integers fits in 128 bits.
pub proof fn lemma_cross_product_fits(a: i64, b: i64)
    ensures
        i128::MIN <= (a as int) * (b as int) <= i128::MAX,
{
    let x = a as int;
    let y = b as int;
    let lim: int = 0x8000_0000_0000_0000;
    assert(-lim <= x < lim && -lim <= y < lim);
    assert(-(lim * lim) <= x * y <= lim * lim) by (nonlinear_arith)
        requires
            -lim <= x < lim,
            -lim <= y < lim,
    ;
    assert(lim * lim == 0x4000_0000_0000_0000_0000_0000_0000_0000) by (nonlinear_arith)
        requires
            lim == 0x8000_0000_0000_0000,
    ;
}

} // verus!
