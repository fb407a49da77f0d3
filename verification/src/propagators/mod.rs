//! The Runge-Kutta propagator as a decision procedure.
//!
//! A step of an explicit Runge-Kutta method evaluates the derivative once per
//! stage, combines the stages with the weights of a Butcher tableau and, for
//! an embedded pair, judges the step by an error estimate.  This module holds
//! what of that is exact: the tableau and where its coefficients lie, the
//! options and their ordering, and every decision of the step control, taken
//! from the outcomes of the comparisons that the arithmetic yields.
use crate::ratio::{Frac, Ratio, Relation};
use vstd::arithmetic::mul::lemma_mul_upper_bound;
use vstd::prelude::*;

pub mod butcher;
pub mod dormand;
pub mod error_ctrl;
pub mod fehlberg;
pub mod options;
pub mod rk;
pub mod verner;

pub use self::dormand::Dormand45;
pub use self::fehlberg::Fehlberg45;
pub use self::options::PropOpts;
pub use self::rk::RK4Fixed;
pub use self::verner::Verner56;

verus! {

/// `n (n - 1) / 2`: the number of coefficients above stage `n` in a tableau
/// that is stored row by row.
pub open spec fn triangle(n: int) -> int {
    n * (n - 1) / 2
}

/// The shape that a Butcher tableau must have: at least one stage, a
/// strictly lower triangular matrix `a` stored row by row, and one row of
/// weights `b` where the stage count equals the order, else two rows, the
/// weights of the method followed by those of the embedded one.
pub open spec fn well_shaped(order: u8, stages: usize, a: Seq<Ratio>, b: Seq<Ratio>) -> bool {
    &&& order >= 1
    &&& stages >= 1
    &&& a.len() == triangle(stages as int)
    &&& b.len() == if stages == order { stages as int } else { 2 * stages }
    &&& forall|i: int| 0 <= i < a.len() ==> (#[trigger] a[i]).wf()
    &&& forall|i: int| 0 <= i < b.len() ==> (#[trigger] b[i]).wf()
}

/// An explicit Runge-Kutta method, given by its Butcher tableau.  The nodes
/// `c_i` are not stored: they are the row sums of `a`.
pub trait RK {
    spec fn order_spec() -> u8;

    spec fn stages_spec() -> usize;

    spec fn a_spec() -> Seq<Ratio>;

    spec fn b_spec() -> Seq<Ratio>;

    /// The tableau has the shape that `well_shaped` describes.
    proof fn shape()
        ensures
            well_shaped(Self::order_spec(), Self::stages_spec(), Self::a_spec(), Self::b_spec()),
    ;

    /// Order of the method, which scales the adaptive step.
    fn order() -> (r: u8)
        ensures
            r == Self::order_spec(),
    ;

    /// Number of derivative evaluations per step.
    fn stages() -> (r: usize)
        ensures
            r == Self::stages_spec(),
    ;

    /// The coefficients `a_ij` with `j < i`, row by row.
    fn a_coeffs() -> (r: Vec<Ratio>)
        ensures
            r@ == Self::a_spec(),
    ;

    /// The weights `b_i`, followed for an embedded pair by the weights
    /// `b*_i` of the second method.
    fn b_coeffs() -> (r: Vec<Ratio>)
        ensures
            r@ == Self::b_spec(),
    ;
}

/// Row `n` of a tableau holds `n` coefficients.
pub proof fn lemma_triangle_step(n: int)
    requires
        0 <= n,
    ensures
        triangle(n + 1) == triangle(n) + n,
        0 <= triangle(n),
{
    assert((n + 1) * n == n * (n - 1) + 2 * n) by (nonlinear_arith);
    assert(n * (n - 1) >= 0) by (nonlinear_arith)
        requires
            0 <= n,
    ;
}

/// Rows lie one after the other: what precedes an earlier row precedes a
/// later one.
pub proof fn lemma_triangle_monotonic(m: int, n: int)
    requires
        0 <= m <= n,
    ensures
        triangle(m) <= triangle(n),
    decreases n - m,
{
    if m < n {
        lemma_triangle_monotonic(m, n - 1);
        lemma_triangle_step(n - 1);
    }
}

/// What the evaluation of one attempt at a step found: how the error
/// estimate stands to the tolerance, and how the magnitude of the step that
/// was tried stands to the smallest step allowed.
#[derive(Clone, Copy, Debug, PartialEq, Eq, Structural)]
pub struct Trial {
    pub error_vs_tolerance: Relation,
    pub step_vs_min: Relation,
}

/// What becomes of an attempt at a step.
#[derive(Clone, Copy, Debug, PartialEq, Eq, Structural)]
pub enum Verdict {
    /// The step stands.  `exhausted` tells that the attempts ran out, which
    /// deserves a warning.  Where `grow` is `Some(p)`, the next step is
    /// `0.9 h (tolerance / error)^(1/p)`, and no more than the largest step.
    Commit { exhausted: bool, grow: Option<u8> },
    /// The step is tried again with `0.9 h (tolerance / error)^(1/p)` for
    /// `p = root`, and no less than the smallest step.
    Retry { root: u8 },
}

/// What follows a step that `until_time_elapsed` has taken.
#[derive(Clone, Copy, Debug, PartialEq, Eq, Structural)]
pub enum Progress {
    /// The stop time lies ahead: the state is published and another step
    /// is taken.
    Continue,
    /// The step went past the stop time: it is dropped, and one step of
    /// exactly the remaining length is taken from where it began.
    FinalStep,
    /// The propagation is over with the state that was just computed.
    Done,
}

/// The state of a propagator as far as its decisions depend on it.
pub struct PropagatorView {
    pub order: u8,
    pub stages: usize,
    pub a_coeffs: Seq<Ratio>,
    pub b_coeffs: Seq<Ratio>,
    /// Whether every step is taken as it is, without an error estimate.
    pub fixed_step: bool,
    /// Whether the next step is the one that lands on the stop time.
    pub final_step: bool,
    /// Attempts made at the current step, this one included.
    pub attempts: u8,
    /// Attempts allowed at one step.
    pub max_attempts: u8,
}

impl PropagatorView {
    /// The tableau is well shaped, and a method without embedded weights
    /// takes its steps as they are.
    pub open spec fn wf(self) -> bool {
        &&& well_shaped(self.order, self.stages, self.a_coeffs, self.b_coeffs)
        &&& self.stages == self.order ==> self.fixed_step
    }

    /// Whether the next step is committed without an error estimate.
    pub open spec fn takes_step_as_is(self) -> bool {
        self.fixed_step || self.final_step
    }

    /// The verdict on an attempt.  An adaptive step stands if its error is
    /// within the tolerance, if it is no longer than the smallest step, or
    /// if no attempt is left.
    pub open spec fn verdict(self, trial: Trial) -> Verdict {
        if self.takes_step_as_is() {
            Verdict::Commit { exhausted: false, grow: None }
        } else if trial.error_vs_tolerance.at_most() || trial.step_vs_min.at_most()
            || self.attempts >= self.max_attempts {
            Verdict::Commit {
                exhausted: self.attempts >= self.max_attempts,
                grow: if trial.error_vs_tolerance == Relation::Less {
                    Some(self.order)
                } else {
                    None
                },
            }
        } else {
            Verdict::Retry { root: (self.order - 1) as u8 }
        }
    }

    /// The state after an attempt: a retry counts as one more attempt, and a
    /// step that stands uses up the one step that was to land on the stop
    /// time.
    pub open spec fn after(self, trial: Trial) -> PropagatorView {
        match self.verdict(trial) {
            Verdict::Commit { .. } => PropagatorView { final_step: false, ..self },
            Verdict::Retry { .. } => PropagatorView { attempts: (self.attempts + 1) as u8, ..self },
        }
    }
}

/// The step that follows an accepted one: `proposed`, and no more than the
/// largest step `max_step`.  `proposed_vs_max` tells how the two stand.
pub open spec fn grown<T>(proposed: T, max_step: T, proposed_vs_max: Relation) -> T {
    if proposed_vs_max == Relation::Greater {
        max_step
    } else {
        proposed
    }
}

/// The step with which a rejected one is tried again: `proposed`, and no
/// less than the smallest step `min_step`.
pub open spec fn shrunk<T>(proposed: T, min_step: T, proposed_vs_min: Relation) -> T {
    if proposed_vs_min == Relation::Less {
        min_step
    } else {
        proposed
    }
}

/// Computes `grown`.
pub fn grown_step<T>(proposed: T, max_step: T, proposed_vs_max: Relation) -> (next: T)
    ensures
        next == grown(proposed, max_step, proposed_vs_max),
{
    match proposed_vs_max {
        Relation::Greater => max_step,
        _ => proposed,
    }
}

/// Computes `shrunk`.
pub fn shrunk_step<T>(proposed: T, min_step: T, proposed_vs_min: Relation) -> (next: T)
    ensures
        next == shrunk(proposed, min_step, proposed_vs_min),
{
    match proposed_vs_min {
        Relation::Less => min_step,
        _ => proposed,
    }
}

/// `9 h f / 10`: the step that is proposed after a step `h` whose
/// tolerance, over its error, has the root `f`.
pub open spec fn proposal(h: Frac, f: Frac) -> Frac {
    Frac::new(9, 10).times(h).times(f)
}

/// After an accepted step the step does not fall below nine tenths of it:
/// where the error of a step `h` is within the tolerance, the factor `f`
/// is at least one, and the next step, `9 h f / 10` or the largest step,
/// is at least `9 h / 10`.
pub proof fn lemma_accepted_step_keeps_nine_tenths(h: Frac, f: Frac, max_step: Frac)
    requires
        h.wf(),
        f.wf(),
        max_step.wf(),
        h.num >= 0,
        Frac::whole(1).le(f),
        h.le(max_step),
    ensures
        Frac::new(9, 10).times(h).le(
            grown(proposal(h, f), max_step, proposal(h, f).relation(max_step)),
        ),
{
    let nine = Frac::new(9, 10).times(h);
    let p = proposal(h, f);
    let (hn, hd, fn_, fd, mn, md) = (h.num, h.den, f.num, f.den, max_step.num, max_step.den);
    assert(nine.num == 9 * hn && nine.den == 10 * hd);
    if p.relation(max_step) == Relation::Greater {
        // 9 hn md <= 9 mn hd <= 10 mn hd
        let (u, v) = (hn * md, mn * hd);
        assert(u >= 0) by (nonlinear_arith)
            requires
                u == hn * md,
                hn >= 0,
                md > 0,
        ;
        assert((9 * hn) * md == 9 * u) by (nonlinear_arith)
            requires
                u == hn * md,
        ;
        assert(mn * (10 * hd) == 10 * v) by (nonlinear_arith)
            requires
                v == mn * hd,
        ;
    } else {
        // w fd <= w fn for w = 9 hn 10 hd
        assert(p.num == (9 * hn) * fn_ && p.den == (10 * hd) * fd);
        let w = (9 * hn) * (10 * hd);
        assert(w >= 0) by (nonlinear_arith)
            requires
                w == (9 * hn) * (10 * hd),
                hn >= 0,
                hd > 0,
        ;
        assert((9 * hn) * ((10 * hd) * fd) == w * fd) by (nonlinear_arith)
            requires
                w == (9 * hn) * (10 * hd),
        ;
        assert(((9 * hn) * fn_) * (10 * hd) == w * fn_) by (nonlinear_arith)
            requires
                w == (9 * hn) * (10 * hd),
        ;
        assert(w * fd <= w * fn_) by (nonlinear_arith)
            requires
                w >= 0,
                fd <= fn_,
        ;
    }
}

/// A rejected step is tried again with a smaller one, unless with the
/// smallest: where the error of a positive step `h` exceeds the tolerance,
/// the factor `f` is below one, and the next attempt, `9 h f / 10` or the
/// smallest step, is below `h` or is the smallest step.
pub proof fn lemma_rejected_step_shrinks(h: Frac, f: Frac, min_step: Frac)
    requires
        h.wf(),
        f.wf(),
        min_step.wf(),
        h.num > 0,
        f.num >= 0,
        f.lt(Frac::whole(1)),
    ensures
        ({
            let next = shrunk(proposal(h, f), min_step, proposal(h, f).relation(min_step));
            next.lt(h) || next == min_step
        }),
{
    let p = proposal(h, f);
    let (hn, hd, fn_, fd) = (h.num, h.den, f.num, f.den);
    if p.relation(min_step) != Relation::Less {
        // g 9 fn < g 10 fd for g = hn hd
        assert(p.num == (9 * hn) * fn_ && p.den == (10 * hd) * fd);
        let g = hn * hd;
        assert(g > 0) by (nonlinear_arith)
            requires
                g == hn * hd,
                hn > 0,
                hd > 0,
        ;
        assert(((9 * hn) * fn_) * hd == g * (9 * fn_)) by (nonlinear_arith)
            requires
                g == hn * hd,
        ;
        assert(hn * ((10 * hd) * fd) == g * (10 * fd)) by (nonlinear_arith)
            requires
                g == hn * hd,
        ;
        assert(g * (9 * fn_) < g * (10 * fd)) by (nonlinear_arith)
            requires
                g > 0,
                9 * fn_ < 10 * fd,
        ;
    }
}

/// Whether each of `trials`, judged one after the other from state `p`, is
/// sent back for another attempt.
pub open spec fn all_retried(p: PropagatorView, trials: Seq<Trial>) -> bool
    decreases trials.len(),
{
    trials.len() == 0 || (p.verdict(trials[0]) is Retry && all_retried(
        p.after(trials[0]),
        trials.skip(1),
    ))
}

/// The attempts at one step are bounded: from the first attempt of a step
/// on, fewer trials than `max_attempts` can be sent back one after the
/// other, so that the trial with number `max_attempts` stands whatever it
/// found.  A propagator that takes its steps as they are sends none back.
pub proof fn lemma_retries_bounded(p: PropagatorView, trials: Seq<Trial>)
    requires
        p.attempts >= 1,
        all_retried(p, trials),
        trials.len() > 0,
    ensures
        !p.takes_step_as_is(),
        p.attempts + trials.len() <= p.max_attempts,
    decreases trials.len(),
{
    if trials.len() > 1 {
        lemma_retries_bounded(p.after(trials[0]), trials.skip(1));
    }
}

/// What follows a step of a propagation over a time span whose sign is
/// `elapsed_vs_zero`, when the time after the step stands to the stop time as
/// `time_vs_stop`.  Forward, the propagation goes on while the time is
/// before the stop time; backward, while it is not before it.
pub open spec fn progress(elapsed_vs_zero: Relation, time_vs_stop: Relation) -> Progress {
    if elapsed_vs_zero == Relation::Less {
        match time_vs_stop {
            Relation::Greater | Relation::Equal => Progress::Continue,
            Relation::Less => Progress::FinalStep,
            Relation::Unordered => Progress::Done,
        }
    } else {
        match time_vs_stop {
            Relation::Less => Progress::Continue,
            Relation::Greater => Progress::FinalStep,
            Relation::Equal | Relation::Unordered => Progress::Done,
        }
    }
}

/// The step control of a Runge-Kutta propagator: the tableau, the options,
/// and the count of attempts at the current step.
pub struct Propagator<E> {
    opts: PropOpts<E>,
    attempts: u8,
    order: u8,
    stages: usize,
    a_coeffs: Vec<Ratio>,
    b_coeffs: Vec<Ratio>,
    fixed_step: bool,
    final_step: bool,
}

impl<E> View for Propagator<E> {
    type V = PropagatorView;

    closed spec fn view(&self) -> PropagatorView {
        PropagatorView {
            order: self.order,
            stages: self.stages,
            a_coeffs: self.a_coeffs@,
            b_coeffs: self.b_coeffs@,
            fixed_step: self.fixed_step,
            final_step: self.final_step,
            attempts: self.attempts,
            max_attempts: self.opts.attempts,
        }
    }
}

impl<E: Copy> Propagator<E> {
    /// A propagator for the method `T` with the options `opts`.  A method
    /// with as many stages as its order has no embedded weights and takes
    /// fixed steps.
    pub fn new<T: RK>(opts: &PropOpts<E>) -> (p: Propagator<E>)
        ensures
            p@ == (PropagatorView {
                order: T::order_spec(),
                stages: T::stages_spec(),
                a_coeffs: T::a_spec(),
                b_coeffs: T::b_spec(),
                fixed_step: T::stages_spec() == T::order_spec(),
                final_step: false,
                attempts: 1,
                max_attempts: opts.attempts,
            }),
            p@.wf(),
            p.options() == *opts,
    {
        proof {
            T::shape();
        }
        let stages = T::stages();
        let order = T::order();
        Propagator {
            opts: *opts,
            attempts: 1,
            order,
            stages,
            a_coeffs: T::a_coeffs(),
            b_coeffs: T::b_coeffs(),
            fixed_step: stages == order as usize,
            final_step: false,
        }
    }
}

impl<E> Propagator<E> {
    #[verifier::type_invariant]
    spec fn inv(&self) -> bool {
        self@.wf()
    }

    /// The options that the propagator was made with.
    pub closed spec fn options(&self) -> PropOpts<E> {
        self.opts
    }

    /// Order of the method.
    pub fn order(&self) -> (r: u8)
        ensures
            r == self@.order,
    {
        self.order
    }

    /// Number of stages of the method.
    pub fn stages(&self) -> (r: usize)
        ensures
            r == self@.stages,
    {
        self.stages
    }

    /// The coefficients `a_ij`, row by row.
    pub fn a_coeffs(&self) -> (r: &Vec<Ratio>)
        ensures
            r@ == self@.a_coeffs,
    {
        &self.a_coeffs
    }

    /// The weights `b_i`, followed by the embedded weights where the method
    /// has them.
    pub fn b_coeffs(&self) -> (r: &Vec<Ratio>)
        ensures
            r@ == self@.b_coeffs,
    {
        &self.b_coeffs
    }

    /// Attempts made at the current step.
    pub fn attempts(&self) -> (r: u8)
        ensures
            r == self@.attempts,
    {
        self.attempts
    }

    /// Whether the next step is committed without an error estimate.
    pub fn takes_step_as_is(&self) -> (r: bool)
        ensures
            r == self@.takes_step_as_is(),
            self@.wf(),
    {
        proof {
            use_type_invariant(self);
        }
        self.fixed_step || self.final_step
    }

    /// The options that the propagator was made with.
    pub fn opts(&self) -> (r: &PropOpts<E>)
        ensures
            *r == self.options(),
    {
        &self.opts
    }

    /// Where in `a_coeffs` the coefficients of stage `i` lie, counting the
    /// stages from zero: stage `i` reads the `i` stages before it, and its
    /// coefficients follow those of the stages before it.  `None` for a
    /// stage that the method does not have.
    pub fn stage_row(&self, i: usize) -> (r: Option<(usize, usize)>)
        ensures
            i >= self@.stages ==> r.is_none(),
            i < self@.stages ==> r == Some((triangle(i as int) as usize, triangle(i + 1) as usize)),
            i < self@.stages ==> 0 <= triangle(i as int) <= triangle(i + 1) <= self@.a_coeffs.len(),
    {
        proof {
            use_type_invariant(self);
        }
        if i >= self.stages {
            return None;
        }
        let len = self.a_coeffs.len();
        proof {
            lemma_triangle_step(i as int);
            lemma_triangle_monotonic(i + 1, self.stages as int);
            assert(triangle(i + 1) <= len);
            if i > 0 {
                lemma_mul_upper_bound(i as int, u64::MAX as int, i - 1, u64::MAX as int);
            }
            assert(u64::MAX * u64::MAX <= u128::MAX) by (nonlinear_arith);
        }
        let start: usize = if i == 0 {
            assert(triangle(0) == 0) by (nonlinear_arith);
            0
        } else {
            let twice: u128 = (i as u128) * ((i - 1) as u128);
            assert(twice == (i as int) * (i as int - 1));
            (twice / 2) as usize
        };
        assert(start == triangle(i as int));
        Some((start, start + i))
    }

    /// The weight `b_i` of stage `i`, counting from zero.
    pub fn weight(&self, i: usize) -> (r: Option<Ratio>)
        ensures
            r == (if i < self@.stages {
                Some(self@.b_coeffs[i as int])
            } else {
                None
            }),
    {
        proof {
            use_type_invariant(self);
        }
        if i < self.stages {
            Some(self.b_coeffs[i])
        } else {
            None
        }
    }

    /// The weight `b*_i` that the embedded method gives stage `i`.  `None`
    /// where the method has no embedded weights.
    pub fn embedded_weight(&self, i: usize) -> (r: Option<Ratio>)
        ensures
            r == (if i < self@.stages && self@.stages != self@.order {
                Some(self@.b_coeffs[i + self@.stages])
            } else {
                None
            }),
    {
        proof {
            use_type_invariant(self);
        }
        let len = self.b_coeffs.len();
        if i < self.stages && self.stages != self.order as usize {
            assert(len == 2 * self.stages);
            Some(self.b_coeffs[i + self.stages])
        } else {
            None
        }
    }

    /// From now on every step is taken as it is.
    pub fn set_fixed_step(&mut self)
        ensures
            final(self)@ == (PropagatorView { fixed_step: true, ..old(self)@ }),
            final(self).options() == old(self).options(),
    {
        proof {
            use_type_invariant(&*self);
        }
        self.fixed_step = true;
    }

    /// Opens a step: the attempt that follows is the first.
    pub fn start_step(&mut self)
        ensures
            final(self)@ == (PropagatorView { attempts: 1, ..old(self)@ }),
            final(self).options() == old(self).options(),
    {
        proof {
            use_type_invariant(&*self);
        }
        self.attempts = 1;
    }

    /// Judges an attempt at a step.  In fixed-step mode, and for the step
    /// that lands on the stop time, the trial is not consulted.
    pub fn derive(&mut self, trial: Trial) -> (v: Verdict)
        ensures
            v == old(self)@.verdict(trial),
            final(self)@ == old(self)@.after(trial),
            final(self).options() == old(self).options(),
    {
        proof {
            use_type_invariant(&*self);
        }
        if self.fixed_step || self.final_step {
            self.final_step = false;
            return Verdict::Commit { exhausted: false, grow: None };
        }
        let exhausted = self.attempts >= self.opts.attempts;
        let within = match trial.error_vs_tolerance {
            Relation::Less | Relation::Equal => true,
            _ => false,
        };
        let smallest = match trial.step_vs_min {
            Relation::Less | Relation::Equal => true,
            _ => false,
        };
        if within || smallest || exhausted {
            let grow = match trial.error_vs_tolerance {
                Relation::Less => Some(self.order),
                _ => None,
            };
            Verdict::Commit { exhausted, grow }
        } else {
            self.attempts = self.attempts + 1;
            Verdict::Retry { root: self.order - 1 }
        }
    }

    /// Decides what follows a step of a propagation over a time span.  For
    /// `FinalStep` the propagator takes its next step as it is, once.
    pub fn until_time_elapsed(
        &mut self,
        elapsed_vs_zero: Relation,
        time_vs_stop: Relation,
    ) -> (p: Progress)
        ensures
            p == progress(elapsed_vs_zero, time_vs_stop),
            final(self)@ == (PropagatorView {
                final_step: old(self)@.final_step || p == Progress::FinalStep,
                ..old(self)@
            }),
            final(self).options() == old(self).options(),
    {
        proof {
            use_type_invariant(&*self);
        }
        let backward = match elapsed_vs_zero {
            Relation::Less => true,
            _ => false,
        };
        let p = if backward {
            match time_vs_stop {
                Relation::Greater | Relation::Equal => Progress::Continue,
                Relation::Less => Progress::FinalStep,
                Relation::Unordered => Progress::Done,
            }
        } else {
            match time_vs_stop {
                Relation::Less => Progress::Continue,
                Relation::Greater => Progress::FinalStep,
                Relation::Equal | Relation::Unordered => Progress::Done,
            }
        };
        match p {
            Progress::FinalStep => {
                self.final_step = true;
            },
            _ => {},
        }
        p
    }
}

} // verus!
