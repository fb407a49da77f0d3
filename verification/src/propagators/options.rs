//! Options of a propagator: the bounds of the step, the tolerance on the
//! error of a step, and the number of attempts at one step.
use crate::propagators::error_ctrl::RSSStepPV;
use crate::ratio::Ratio;
use vstd::prelude::*;

verus! {

/// Step sizes are in seconds and are magnitudes: the direction of a
/// propagation is not part of the options.
///
/// The bounds and the tolerance matter to adaptive methods only.  With
/// options made by `with_fixed_step` an adaptive method keeps its step, so
/// that an embedded pair of orders 4 and 5 is used as a fixed-step method.
#[derive(Clone, Copy, Debug)]
pub struct PropOpts<E> {
    pub init_step: Ratio,
    pub min_step: Ratio,
    pub max_step: Ratio,
    pub tolerance: Ratio,
    pub attempts: u8,
    pub fixed_step: bool,
    pub errctrl: E,
}

impl<E> PropOpts<E> {
    /// The bounds are ordered, `min_step <= init_step <= max_step`, the
    /// tolerance is not negative, and fixed-step options have one step size
    /// and no tolerance.
    pub open spec fn wf(self) -> bool {
        &&& self.init_step.wf()
        &&& self.min_step.wf()
        &&& self.max_step.wf()
        &&& self.tolerance.wf()
        &&& self.min_step@.le(self.init_step@)
        &&& self.init_step@.le(self.max_step@)
        &&& self.tolerance.num >= 0
        &&& self.fixed_step ==> self.min_step@.eqv(self.max_step@) && self.tolerance.num == 0
    }

    /// Whether the options are well formed.
    pub fn is_valid(&self) -> (b: bool)
        ensures
            b == self.wf(),
    {
        let positive = self.init_step.den > 0 && self.min_step.den > 0 && self.max_step.den > 0
            && self.tolerance.den > 0;
        positive && self.min_step.at_most(&self.init_step) && self.init_step.at_most(&self.max_step)
            && self.tolerance.num >= 0 && (!self.fixed_step || (self.min_step.same_value(
            &self.max_step,
        ) && self.tolerance.num == 0))
    }

    /// Options for a fixed step of `step` seconds.
    pub fn with_fixed_step(step: Ratio, errctrl: E) -> (opts: PropOpts<E>)
        ensures
            opts == (PropOpts {
                init_step: step,
                min_step: step,
                max_step: step,
                tolerance: Ratio { num: 0, den: 1 },
                attempts: 0,
                fixed_step: true,
                errctrl,
            }),
            opts.wf() <==> step.wf(),
    {
        PropOpts {
            init_step: step,
            min_step: step,
            max_step: step,
            tolerance: Ratio { num: 0, den: 1 },
            fixed_step: true,
            attempts: 0,
            errctrl,
        }
    }

    /// Options for an adaptive step between `min_step` and `max_step`
    /// seconds, starting from the largest.  A step is tried at most 50
    /// times.
    pub fn with_adaptive_step(
        min_step: Ratio,
        max_step: Ratio,
        tolerance: Ratio,
        errctrl: E,
    ) -> (opts: PropOpts<E>)
        ensures
            opts == (PropOpts {
                init_step: max_step,
                min_step,
                max_step,
                tolerance,
                attempts: 50,
                fixed_step: false,
                errctrl,
            }),
            opts.wf() <==> {
                &&& min_step.wf()
                &&& max_step.wf()
                &&& tolerance.wf()
                &&& min_step@.le(max_step@)
                &&& tolerance.num >= 0
            },
    {
        PropOpts {
            init_step: max_step,
            min_step,
            max_step,
            tolerance,
            attempts: 50,
            fixed_step: false,
            errctrl,
        }
    }
}

impl Default for PropOpts<RSSStepPV> {
    /// An adaptive step between a millisecond and 45 minutes that starts at
    /// one minute, a tolerance of `1e-12` and 50 attempts.
    fn default() -> (opts: PropOpts<RSSStepPV>)
        ensures
            opts == (PropOpts {
                init_step: Ratio { num: 60, den: 1 },
                min_step: Ratio { num: 1, den: 1000 },
                max_step: Ratio { num: 2700, den: 1 },
                tolerance: Ratio { num: 1, den: 1_000_000_000_000 },
                attempts: 50,
                fixed_step: false,
                errctrl: RSSStepPV {},
            }),
            opts.wf(),
    {
        PropOpts {
            init_step: Ratio { num: 60, den: 1 },
            min_step: Ratio { num: 1, den: 1000 },
            max_step: Ratio { num: 2700, den: 1 },
            tolerance: Ratio { num: 1, den: 1_000_000_000_000 },
            attempts: 50,
            fixed_step: false,
            errctrl: RSSStepPV {},
        }
    }
}

} // verus!
