use tween::animation::{Animate, AnimateSequence, Animation, Bounce, CurveFn};
use tween::fixed::{Fx, SCALE};

fn fxi(v: i64) -> Fx {
    Fx::from_int(v)
}

fn fxr(raw: i64) -> Fx {
    Fx::new(raw)
}

type Anim = Animate<Fx, Bounce>;

#[test]
fn fixed_holds_its_value() {
    let mut a: Anim = Animate::Fixed(fxi(5));
    assert_eq!(a.now(), fxi(5));
    a.step(Fx::zero());
    assert_eq!(a.now(), fxi(5));
    a.step(fxi(1));
    a.step(fxr(1));
    a.step(fxi(1000));
    assert_eq!(a.now(), fxi(5));
    assert!(a.steady());
}

#[test]
fn slide_blends_by_consumed_share() {
    // Slide(0, 1, 1.0) stepped by 0.25: now == blend(0, 1, 0.25).
    let mut a: Anim = Animate::Slide(fxi(0), fxi(1), fxi(1));
    a.step(fxr(SCALE / 4));
    assert_eq!(a.now(), fxr(SCALE / 4));
    match &a {
        Animate::Slide(_, _, t) => assert_eq!(*t, fxr(3 * SCALE / 4)),
        _ => panic!("slide should still be sliding"),
    }
}

#[test]
fn slide_reaches_target_after_full_window() {
    let mut a: Anim = Animate::Slide(fxi(3), fxi(7), fxi(2));
    a.step(fxi(2));
    assert_eq!(a.now(), fxi(7));
    assert!(!a.steady());
    a.step(fxr(1));
    assert!(a.steady());
    assert_eq!(a.now(), fxi(7));
}

#[test]
fn slide_overshoot_snaps_to_fixed() {
    let mut a: Anim = Animate::Slide(fxi(3), fxi(7), fxi(2));
    a.step(fxi(5));
    assert!(matches!(a, Animate::Fixed(_)));
    assert_eq!(a.now(), fxi(7));
}

#[test]
fn bounded_linear_holds_start_then_expires() {
    // BoundedLinear(2, 6, 1, 3): the window opens after one second and
    // closes after three.
    let mut a: Anim = Animate::BoundedLinear(fxi(2), fxi(6), fxi(1), fxi(3));
    assert_eq!(a.now(), fxi(2));
    a.step(fxr(SCALE / 2));
    assert_eq!(a.now(), fxi(2));
    // Consume the rest of the window in pieces summing exactly to it.
    a.step(fxr(SCALE / 2));
    a.step(fxi(1));
    a.step(fxi(1));
    assert_eq!(a.now(), fxi(6));
    assert!(!a.steady());
    // Any further positive step snaps to the fixed end value.
    a.step(fxr(1));
    assert!(a.steady());
    assert_eq!(a.now(), fxi(6));
}

#[test]
fn bounded_linear_blends_inside_window() {
    // At one second into BoundedLinear(0, 4, -1, 3): factor 1/4.
    let mut a: Anim = Animate::BoundedLinear(fxi(0), fxi(4), fxi(1), fxi(5));
    a.step(fxi(2));
    assert_eq!(a.now(), fxi(1));
}

#[test]
fn switch_counts_down_then_snaps() {
    let mut a: Anim = Animate::Switch(fxi(1), fxi(9), fxi(2));
    a.step(fxr(SCALE / 2));
    assert_eq!(a.now(), fxi(1));
    match &a {
        Animate::Switch(_, _, t) => assert_eq!(*t, fxr(3 * SCALE / 2)),
        _ => panic!("switch should still be counting down"),
    }
    a.step(fxi(2));
    assert!(matches!(a, Animate::Fixed(_)));
    assert_eq!(a.now(), fxi(9));
}

#[test]
fn switch_stepped_by_exactly_its_time_is_not_yet_fixed() {
    let mut a: Anim = Animate::Switch(fxi(1), fxi(9), fxi(2));
    a.step(fxi(2));
    assert!(!a.steady());
    assert_eq!(a.now(), fxi(1));
}

#[test]
fn linear_extrapolates_outside_window() {
    // Linear(0, 1, 1, 2): the factor s / (s - t) starts at -1.
    let a: Anim = Animate::Linear(fxi(0), fxi(1), fxi(1), fxi(2));
    assert_eq!(a.now(), fxi(-1));
}

#[test]
fn linear_never_terminates() {
    let mut a: Anim = Animate::Linear(fxi(0), fxi(1), fxi(1), fxi(2));
    a.step(fxi(100));
    assert!(!a.steady());
    assert!(matches!(a, Animate::Linear(_, _, _, _)));
}

#[test]
fn smooth_switch_uses_smoothstep() {
    // s = -1, t = 1: x = 1/2, and 3*x*x - 2*x*x*x = 1/2.
    let a: Anim = Animate::SmoothSwitch(fxi(0), fxi(1), fxi(-1), fxi(1));
    assert_eq!(a.now(), fxr(SCALE / 2));
}

#[test]
fn soft_switch_raises_to_the_exponent() {
    // s = -1, t = 1: x = 1/2, (1 - x)^2 = 1/4.
    let a: Anim = Animate::SoftSwitch(fxi(0), fxi(1), 2, fxi(-1), fxi(1));
    assert_eq!(a.now(), fxr(SCALE / 4));
}

#[test]
fn soft_switch_negative_exponent_takes_reciprocal() {
    // (1 - 1/2)^(-1) = 2, an extrapolated blend factor.
    let a: Anim = Animate::SoftSwitch(fxi(0), fxi(1), -1, fxi(-1), fxi(1));
    assert_eq!(a.now(), fxi(2));
}

#[test]
fn sequence_steps_across_entries() {
    // [(Slide(0, 1, 1.0), 1.0), (Slide(1, 2, 1.0), 1.0)] with end 2.0,
    // stepped by 1.5 in one call: half way into the second entry.
    let mut s: AnimateSequence<Fx, Bounce> = AnimateSequence::new(fxi(2));
    s.before(fxi(1), Animate::Slide(fxi(1), fxi(2), fxi(1)));
    s.before(fxi(1), Animate::Slide(fxi(0), fxi(1), fxi(1)));
    s.step(fxr(3 * SCALE / 2));
    assert_eq!(s.now(), fxr(3 * SCALE / 2));
    assert_eq!(s.queue.len(), 1);
}

#[test]
fn sequence_emits_end_once_empty() {
    let mut s: AnimateSequence<Fx, Bounce> = AnimateSequence::new(fxi(2));
    s.before(fxi(1), Animate::Slide(fxi(0), fxi(1), fxi(1)));
    s.step(fxi(5));
    assert_eq!(s.queue.len(), 0);
    assert_eq!(s.now(), fxi(2));
    assert!(s.steady());
}

#[test]
fn sequence_steady_looks_at_its_tail() {
    // The head is still animating, but the queue ends in a fixed state, so
    // the sequence deliberately reports steady.
    let mut s: AnimateSequence<Fx, Bounce> = AnimateSequence::new(fxi(0));
    s.before(fxi(1), Animate::Fixed(fxi(9)));
    s.before(fxi(1), Animate::Slide(fxi(0), fxi(1), fxi(1)));
    assert!(s.steady());
    // With a non-steady tail it does not, even though a fixed head plays.
    let mut s2: AnimateSequence<Fx, Bounce> = AnimateSequence::new(fxi(0));
    s2.before(fxi(1), Animate::Slide(fxi(0), fxi(1), fxi(1)));
    s2.before(fxi(1), Animate::Fixed(fxi(9)));
    assert!(!s2.steady());
}

#[test]
fn a_sequence_is_an_animation_variant_too() {
    let mut s: AnimateSequence<Fx, Bounce> = AnimateSequence::new(fxi(4));
    s.before(fxi(1), Animate::Slide(fxi(0), fxi(2), fxi(1)));
    let mut a: Anim = Animate::Sequence(s);
    assert_eq!(a.now(), fxi(0));
    // A sequence variant is never itself steady, whatever its queue holds.
    assert!(!a.steady());
    a.step(fxr(SCALE / 2));
    assert_eq!(a.now(), fxi(1));
}

#[test]
fn normalize_collapses_expired_states() {
    // An already-expired bounded curve is an invalid starting state; one
    // zero-length step collapses it to the fixed end value.
    let a: Anim = Animate::BoundedLinear(fxi(2), fxi(6), fxi(-3), fxi(-1));
    let a = a.normalize();
    assert!(matches!(a, Animate::Fixed(_)));
    assert_eq!(a.now(), fxi(6));
    assert!(a.steady());
}

#[test]
fn normalize_is_idempotent() {
    let cases: Vec<Animate<Fx, Bounce>> = vec![
        Animate::Fixed(fxi(5)),
        Animate::Slide(fxi(0), fxi(1), fxi(2)),
        Animate::BoundedLinear(fxi(2), fxi(6), fxi(-3), fxi(-1)),
        Animate::Switch(fxi(1), fxi(9), fxi(0)),
        Animate::SmoothSwitch(fxi(0), fxi(1), fxi(-1), fxi(1)),
        Animate::bounce_soft(fxi(0), fxi(4), fxi(2)),
    ];
    for a in cases {
        let once = a.normalize();
        let now1 = once.now();
        let steady1 = once.steady();
        let twice = once.normalize();
        assert_eq!(twice.now(), now1);
        assert_eq!(twice.steady(), steady1);
    }
}

#[test]
fn steady_is_true_only_for_fixed() {
    let fresh: Vec<Animate<Fx, Bounce>> = vec![
        Animate::Slide(fxi(0), fxi(1), fxi(1)),
        Animate::Linear(fxi(0), fxi(1), fxi(1), fxi(2)),
        Animate::Quadratic(fxi(0), fxi(1), fxi(2), fxi(1), fxi(2)),
        Animate::Cubic(fxi(0), fxi(1), fxi(2), fxi(3), fxi(1), fxi(2)),
        Animate::BoundedLinear(fxi(0), fxi(1), fxi(1), fxi(2)),
        Animate::BoundedQuadratic(fxi(0), fxi(1), fxi(2), fxi(1), fxi(2)),
        Animate::BoundedCubic(fxi(0), fxi(1), fxi(2), fxi(3), fxi(1), fxi(2)),
        Animate::Switch(fxi(0), fxi(1), fxi(1)),
        Animate::SmoothSwitch(fxi(0), fxi(1), fxi(1), fxi(2)),
        Animate::SoftSwitch(fxi(0), fxi(1), 2, fxi(1), fxi(2)),
        Animate::bounce_soft(fxi(0), fxi(1), fxi(1)),
        Animate::bounce_hard(fxi(0), fxi(1), fxi(1)),
    ];
    for a in fresh {
        assert!(!a.steady());
    }
    assert!(Animate::<Fx, Bounce>::Fixed(fxi(1)).steady());
}

#[test]
fn switch_becomes_steady_after_enough_cumulative_time() {
    let mut a: Anim = Animate::Switch(fxi(0), fxi(1), fxi(3));
    a.step(fxi(1));
    assert!(!a.steady());
    a.step(fxi(1));
    assert!(!a.steady());
    a.step(fxi(1));
    assert!(!a.steady());
    a.step(fxr(1));
    assert!(a.steady());
}

#[test]
fn bounce_soft_rises_and_falls_quartically() {
    let mut a: Anim = Animate::bounce_soft(fxi(0), fxi(4), fxi(2));
    assert_eq!(a.now(), fxi(0));
    a.step(fxi(1));
    // Mid-bounce the quartic reaches one: the output is the far value.
    assert_eq!(a.now(), fxi(4));
    a.step(fxi(1));
    assert_eq!(a.now(), fxi(0));
    a.step(fxi(1));
    // Outside the window the polynomial is clipped to zero.
    assert_eq!(a.now(), fxi(0));
    assert!(!a.steady());
}

#[test]
fn bounce_hard_rises_and_falls_quadratically() {
    let mut a: Anim = Animate::bounce_hard(fxi(0), fxi(4), fxi(2));
    assert_eq!(a.now(), fxi(0));
    a.step(fxr(SCALE / 2));
    // At a quarter of the window: x = -1/2, 1 - x*x = 3/4; value 3.
    assert_eq!(a.now(), fxi(3));
    a.step(fxr(SCALE / 2));
    assert_eq!(a.now(), fxi(4));
}

/// A callable supplied from outside the library: the identity ramp for the
/// value and blend-factor roles, and accumulation for the recurrence role.
#[derive(Clone, Copy)]
struct Ramp;

impl CurveFn<Fx> for Ramp {
    fn value_at(&self, t: Fx) -> Fx {
        t
    }

    fn mix_at(&self, t: Fx) -> Fx {
        t
    }

    fn step_at(&self, v: Fx, dt: Fx) -> Fx {
        v.add(dt)
    }

    fn eval_value(&self, t: Fx) -> Fx {
        t
    }

    fn eval_mix(&self, t: Fx) -> Fx {
        t
    }

    fn eval_step(&self, v: Fx, dt: Fx) -> Fx {
        v.add(dt)
    }
}

#[test]
fn func_outputs_the_callable_at_advancing_time() {
    let mut a: Animate<Fx, Ramp> = Animate::Func(Ramp, fxi(3));
    assert_eq!(a.now(), fxi(3));
    a.step(fxi(2));
    assert_eq!(a.now(), fxi(5));
    assert!(!a.steady());
}

#[test]
fn mix_func_blends_by_the_callable() {
    let mut a: Animate<Fx, Ramp> = Animate::MixFunc(Ramp, fxi(0), fxi(2), fxr(SCALE / 4));
    assert_eq!(a.now(), fxr(SCALE / 2));
    a.step(fxr(SCALE / 4));
    assert_eq!(a.now(), fxi(1));
    // The blend factor runs past one, unclamped.
    a.step(fxi(1));
    assert_eq!(a.now(), fxi(3));
    assert!(!a.steady());
}

#[test]
fn step_func_applies_the_recurrence_each_step() {
    let mut a: Animate<Fx, Ramp> = Animate::StepFunc(Ramp, fxi(0));
    a.step(fxi(1));
    assert_eq!(a.now(), fxi(1));
    a.step(fxi(2));
    assert_eq!(a.now(), fxi(3));
    a.step(Fx::zero());
    assert_eq!(a.now(), fxi(3));
    assert!(!a.steady());
}

#[test]
fn quadratic_variant_follows_the_bezier() {
    // s = -1, t = 1: factor 1/2, so the output is the middle of the curve
    // (1, 2, 5): 0.25 + 1 + 1.25.
    let a: Anim = Animate::Quadratic(fxi(1), fxi(2), fxi(5), fxi(-1), fxi(1));
    assert_eq!(a.now(), fxr(5 * SCALE / 2));
}

#[test]
fn cubic_variant_follows_the_bezier() {
    // s = -1, t = 1: factor 1/2 over (1, 2, 5, 9): 31 / 8.
    let a: Anim = Animate::Cubic(fxi(1), fxi(2), fxi(5), fxi(9), fxi(-1), fxi(1));
    assert_eq!(a.now(), fxr(31 * SCALE / 8));
}

#[test]
fn bounded_quadratic_snaps_to_its_last_point() {
    let mut a: Anim = Animate::BoundedQuadratic(fxi(1), fxi(2), fxi(5), fxi(1), fxi(2));
    assert_eq!(a.now(), fxi(1));
    a.step(fxi(3));
    assert!(a.steady());
    assert_eq!(a.now(), fxi(5));
}

#[test]
fn bounded_cubic_snaps_to_its_last_point() {
    let mut a: Anim = Animate::BoundedCubic(fxi(1), fxi(2), fxi(5), fxi(9), fxi(1), fxi(2));
    assert_eq!(a.now(), fxi(1));
    a.step(fxi(3));
    assert!(a.steady());
    assert_eq!(a.now(), fxi(9));
}

#[test]
fn smooth_switch_counts_down_and_snaps() {
    let mut a: Anim = Animate::SmoothSwitch(fxi(0), fxi(1), fxi(1), fxi(2));
    assert_eq!(a.now(), fxi(0));
    // Half way through the window: x = 1/2, smoothstep gives 1/2.
    a.step(fxr(3 * SCALE / 2));
    assert_eq!(a.now(), fxr(SCALE / 2));
    a.step(fxi(1));
    assert!(a.steady());
    assert_eq!(a.now(), fxi(1));
}
