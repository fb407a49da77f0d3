use nyx_space::propagators::error_ctrl::{RSSStep, RSSStepPV};
use nyx_space::propagators::{
    grown_step, shrunk_step, Dormand45, Progress, PropOpts, Propagator, RK4Fixed, Trial, Verdict,
    Verner56,
};
use nyx_space::ratio::{Ratio, Relation};

const ALL: [Relation; 4] =
    [Relation::Less, Relation::Equal, Relation::Greater, Relation::Unordered];

fn trial(error_vs_tolerance: Relation, step_vs_min: Relation) -> Trial {
    Trial { error_vs_tolerance, step_vs_min }
}

fn adaptive(attempts: u8) -> Propagator<RSSStepPV> {
    let mut opts: PropOpts<RSSStepPV> = Default::default();
    opts.attempts = attempts;
    Propagator::new::<Dormand45>(&opts)
}

#[test]
fn new_takes_the_method_and_the_options() {
    let opts: PropOpts<RSSStepPV> = Default::default();
    let p = Propagator::new::<Dormand45>(&opts);
    assert_eq!(p.order(), 5);
    assert_eq!(p.stages(), 7);
    assert_eq!(p.a_coeffs().len(), 21);
    assert_eq!(p.b_coeffs().len(), 14);
    assert_eq!(p.attempts(), 1);
    assert!(!p.takes_step_as_is());
    assert_eq!(p.opts().attempts, 50);
    assert_eq!(p.opts().init_step, Ratio { num: 60, den: 1 });
    assert_eq!(p.opts().tolerance, Ratio { num: 1, den: 1_000_000_000_000 });

    let p = Propagator::new::<RK4Fixed>(&opts);
    assert_eq!(p.order(), 4);
    assert_eq!(p.stages(), 4);
    assert_eq!(p.a_coeffs().len(), 6);
    assert_eq!(p.b_coeffs().len(), 4);
    assert!(p.takes_step_as_is());

    let p = Propagator::new::<Verner56>(&PropOpts::with_fixed_step(Ratio::whole(10), RSSStep {}));
    assert_eq!(p.order(), 6);
    assert_eq!(p.stages(), 8);
    assert!(!p.takes_step_as_is());
    assert_eq!(p.opts().attempts, 0);
}

#[test]
fn fixed_step_method_commits_whatever_the_trial() {
    let opts: PropOpts<RSSStepPV> = Default::default();
    let mut p = Propagator::new::<RK4Fixed>(&opts);
    for e in ALL {
        for s in ALL {
            p.start_step();
            assert_eq!(p.derive(trial(e, s)), Verdict::Commit { exhausted: false, grow: None });
            assert_eq!(p.attempts(), 1);
            assert!(p.takes_step_as_is());
        }
    }
}

#[test]
fn error_within_tolerance_commits() {
    let mut p = adaptive(50);
    for s in ALL {
        p.start_step();
        assert_eq!(
            p.derive(trial(Relation::Less, s)),
            Verdict::Commit { exhausted: false, grow: Some(5) }
        );
        assert_eq!(
            p.derive(trial(Relation::Equal, s)),
            Verdict::Commit { exhausted: false, grow: None }
        );
        assert_eq!(p.attempts(), 1);
    }
}

#[test]
fn smallest_step_commits_without_growing() {
    let mut p = adaptive(50);
    for s in [Relation::Less, Relation::Equal] {
        for e in [Relation::Greater, Relation::Unordered] {
            p.start_step();
            assert_eq!(p.derive(trial(e, s)), Verdict::Commit { exhausted: false, grow: None });
            assert_eq!(p.attempts(), 1);
        }
    }
}

#[test]
fn error_above_tolerance_retries_with_the_lower_order() {
    let mut p = adaptive(50);
    p.start_step();
    for s in [Relation::Greater, Relation::Unordered] {
        for e in [Relation::Greater, Relation::Unordered] {
            let before = p.attempts();
            assert_eq!(p.derive(trial(e, s)), Verdict::Retry { root: 4 });
            assert_eq!(p.attempts(), before + 1);
        }
    }
    assert_eq!(p.attempts(), 5);
    p.start_step();
    assert_eq!(p.attempts(), 1);
}

#[test]
fn attempts_run_out_at_the_limit() {
    let mut p = adaptive(3);
    p.start_step();
    let bad = trial(Relation::Greater, Relation::Greater);
    assert_eq!(p.derive(bad), Verdict::Retry { root: 4 });
    assert_eq!(p.derive(bad), Verdict::Retry { root: 4 });
    assert_eq!(p.attempts(), 3);
    assert_eq!(p.derive(bad), Verdict::Commit { exhausted: true, grow: None });
    assert_eq!(p.attempts(), 3);
    // A good trial at the limit still tells that the attempts ran out.
    assert_eq!(
        p.derive(trial(Relation::Less, Relation::Greater)),
        Verdict::Commit { exhausted: true, grow: Some(5) }
    );
}

#[test]
fn every_limit_bounds_the_retries() {
    for limit in [0u8, 1, 2, 50, 255] {
        let mut p = adaptive(limit);
        p.start_step();
        let bad = trial(Relation::Greater, Relation::Greater);
        let mut trials: u32 = 1;
        while let Verdict::Retry { .. } = p.derive(bad) {
            trials += 1;
            assert!(trials <= 255);
        }
        assert_eq!(trials, u32::from(limit.max(1)));
        assert_eq!(u32::from(p.attempts()), trials);
    }
}

#[test]
fn no_attempts_allowed_commits_at_once_with_a_warning() {
    let opts = PropOpts::with_fixed_step(Ratio::whole(10), RSSStep {});
    let mut p = Propagator::new::<Dormand45>(&opts);
    p.start_step();
    assert_eq!(
        p.derive(trial(Relation::Greater, Relation::Greater)),
        Verdict::Commit { exhausted: true, grow: None }
    );
    assert_eq!(
        p.derive(trial(Relation::Greater, Relation::Equal)),
        Verdict::Commit { exhausted: true, grow: None }
    );
}

#[test]
fn set_fixed_step_is_for_good() {
    let mut p = adaptive(50);
    p.set_fixed_step();
    assert!(p.takes_step_as_is());
    for _ in 0..3 {
        p.start_step();
        assert_eq!(
            p.derive(trial(Relation::Greater, Relation::Greater)),
            Verdict::Commit { exhausted: false, grow: None }
        );
        assert!(p.takes_step_as_is());
        assert_eq!(p.attempts(), 1);
    }
}

#[test]
fn forward_propagation_stops_at_or_past_the_stop_time() {
    let mut p = adaptive(50);
    for sign in [Relation::Greater, Relation::Equal, Relation::Unordered] {
        assert_eq!(p.until_time_elapsed(sign, Relation::Less), Progress::Continue);
        assert_eq!(p.until_time_elapsed(sign, Relation::Equal), Progress::Done);
        assert_eq!(p.until_time_elapsed(sign, Relation::Unordered), Progress::Done);
        assert!(!p.takes_step_as_is());
        assert_eq!(p.until_time_elapsed(sign, Relation::Greater), Progress::FinalStep);
        assert!(p.takes_step_as_is());
        p.start_step();
        p.derive(trial(Relation::Greater, Relation::Greater));
        assert!(!p.takes_step_as_is());
    }
}

#[test]
fn backward_propagation_goes_on_at_the_stop_time() {
    let mut p = adaptive(50);
    assert_eq!(p.until_time_elapsed(Relation::Less, Relation::Greater), Progress::Continue);
    assert_eq!(p.until_time_elapsed(Relation::Less, Relation::Equal), Progress::Continue);
    assert_eq!(p.until_time_elapsed(Relation::Less, Relation::Unordered), Progress::Done);
    assert!(!p.takes_step_as_is());
    assert_eq!(p.until_time_elapsed(Relation::Less, Relation::Less), Progress::FinalStep);
    assert!(p.takes_step_as_is());
}

#[test]
fn the_final_step_is_taken_as_it_is_once() {
    let mut p = adaptive(50);
    assert_eq!(p.until_time_elapsed(Relation::Greater, Relation::Greater), Progress::FinalStep);
    p.start_step();
    assert_eq!(
        p.derive(trial(Relation::Greater, Relation::Greater)),
        Verdict::Commit { exhausted: false, grow: None }
    );
    assert_eq!(p.attempts(), 1);
    // The step after it is adaptive again.
    p.start_step();
    assert_eq!(p.derive(trial(Relation::Greater, Relation::Greater)), Verdict::Retry { root: 4 });
    assert_eq!(p.attempts(), 2);
}

#[test]
fn steps_are_kept_within_their_bounds() {
    assert_eq!(grown_step(100u32, 2700, Relation::Less), 100);
    assert_eq!(grown_step(2700u32, 2700, Relation::Equal), 2700);
    assert_eq!(grown_step(5000u32, 2700, Relation::Greater), 2700);
    assert_eq!(grown_step(7u32, 2700, Relation::Unordered), 7);
    assert_eq!(shrunk_step(100u32, 1, Relation::Greater), 100);
    assert_eq!(shrunk_step(1u32, 1, Relation::Equal), 1);
    assert_eq!(shrunk_step(0u32, 1, Relation::Less), 1);
    assert_eq!(shrunk_step(7u32, 1, Relation::Unordered), 7);
}

#[test]
fn exact_steps_follow_the_rule_of_nine_tenths() {
    // A step of 60 s whose error is within the tolerance by a factor whose
    // root is 3/2: the proposal is 81 s, within the bound of 2700 s.
    let proposed = Ratio { num: 9 * 60 * 3, den: 10 * 2 };
    let max_step = Ratio::whole(2700);
    let next = grown_step(proposed, max_step, proposed.relation(&max_step));
    assert_eq!(next, Ratio { num: 1620, den: 20 });
    assert!(Ratio { num: 54, den: 1 }.at_most(&next));
    // With a bound of 70 s the bound is taken, still above nine tenths.
    let max_step = Ratio::whole(70);
    let next = grown_step(proposed, max_step, proposed.relation(&max_step));
    assert_eq!(next, Ratio::whole(70));
    assert!(Ratio { num: 54, den: 1 }.at_most(&next));
    // A rejected step of 60 s with a factor of 1/2: 27 s, or the smallest.
    let proposed = Ratio { num: 9 * 60, den: 10 * 2 };
    let min_step = Ratio { num: 1, den: 1000 };
    let next = shrunk_step(proposed, min_step, proposed.relation(&min_step));
    assert_eq!(next.relation(&Ratio::whole(60)), Relation::Less);
    assert!(next.same_value(&Ratio::whole(27)));
    let min_step = Ratio::whole(30);
    let next = shrunk_step(proposed, min_step, proposed.relation(&min_step));
    assert_eq!(next, min_step);
}
