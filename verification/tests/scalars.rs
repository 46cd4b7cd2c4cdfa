use tween::fixed::{Fx, SCALE};
use tween::interact::{Anywhere, ControllerGuru, PointingQuery, VrGuru};

fn fxi(v: i64) -> Fx {
    Fx::from_int(v)
}

fn fxr(raw: i64) -> Fx {
    Fx::new(raw)
}

#[test]
fn arithmetic_is_exact_on_the_grid() {
    assert_eq!(fxi(2).add(fxi(3)), fxi(5));
    assert_eq!(fxi(2).sub(fxi(3)), fxi(-1));
    assert_eq!(fxi(6).mul(fxr(SCALE / 2)), fxi(3));
    assert_eq!(fxi(-7).div(fxi(2)), fxr(-7 * SCALE / 2));
    assert_eq!(fxi(5).neg(), fxi(-5));
}

#[test]
fn addition_saturates_at_the_ends() {
    assert_eq!(fxr(i64::MAX).add(fxr(1)), fxr(i64::MAX));
    assert_eq!(fxr(i64::MIN).sub(fxr(1)), fxr(i64::MIN));
    assert_eq!(fxr(i64::MIN).neg(), fxr(i64::MAX));
}

#[test]
fn multiplication_truncates_toward_zero() {
    // 3/65536 times 3/65536 rounds to zero from either sign.
    assert_eq!(fxr(3).mul(fxr(3)), fxr(0));
    assert_eq!(fxr(-3).mul(fxr(3)), fxr(0));
    // -1.5 truncated by a division rounds toward zero, not downward.
    assert_eq!(fxi(-3).mul(fxr(SCALE / 2)), fxr(-3 * SCALE / 2));
    assert_eq!(fxr(-3 * SCALE / 2).mul(fxr(SCALE / 3)), fxr(-32767));
}

#[test]
fn division_by_zero_yields_zero() {
    assert_eq!(fxi(7).div(fxi(0)), fxi(0));
    assert_eq!(fxi(0).div(fxi(0)), fxi(0));
}

#[test]
fn powers_repeat_multiplication() {
    assert_eq!(fxi(2).powi(0), fxi(1));
    assert_eq!(fxi(2).powi(3), fxi(8));
    assert_eq!(fxi(2).powi(-1), fxr(SCALE / 2));
    assert_eq!(fxr(SCALE / 2).powi(2), fxr(SCALE / 4));
}

#[test]
fn comparisons_follow_raw_counts() {
    assert!(fxi(1).lt(fxi(2)));
    assert!(fxi(2).le(fxi(2)));
    assert!(fxi(3).gt(fxi(2)));
    assert!(fxi(2).ge(fxi(2)));
    assert!(!fxi(2).lt(fxi(2)));
}

#[test]
fn anywhere_starts_empty() {
    let mut slot: Anywhere<i32> = Anywhere::new();
    assert_eq!(slot.take(), None);
}

#[test]
fn anywhere_hands_back_what_was_put() {
    let mut slot: Anywhere<i32> = Anywhere::with(5);
    assert_eq!(slot.take(), Some(5));
    assert_eq!(slot.take(), None);
    slot.put(7);
    slot.put(8);
    assert_eq!(slot.expect("just put"), 8);
    assert_eq!(slot.take(), None);
}

#[test]
fn laser_keeps_the_nearest_hit() {
    let mut guru = ControllerGuru::new();
    assert_eq!(guru.laser_toi, None);
    guru.laser(fxi(5));
    assert_eq!(guru.laser_toi, Some(fxi(5)));
    guru.laser(fxi(7));
    assert_eq!(guru.laser_toi, Some(fxi(5)));
    guru.laser(fxi(2));
    assert_eq!(guru.laser_toi, Some(fxi(2)));
}

#[test]
fn pointing_orders_queries_farthest_first() {
    let mut guru = ControllerGuru::new();
    let first = guru.pointing(fxi(1), false);
    let second = guru.pointing(fxi(3), true);
    let third = guru.pointing(fxi(2), false);
    assert_eq!(first, Some(0));
    assert_eq!(second, Some(0));
    assert_eq!(third, Some(1));
    assert_eq!(
        guru.queries,
        vec![
            PointingQuery { toi: fxi(3), stop: true },
            PointingQuery { toi: fxi(2), stop: false },
            PointingQuery { toi: fxi(1), stop: false },
        ],
    );
}

#[test]
fn apply_answers_until_the_first_stopping_query() {
    let mut guru = ControllerGuru::new();
    guru.pointing(fxi(1), false);
    guru.pointing(fxi(3), true);
    guru.pointing(fxi(2), false);
    let replies = guru.apply();
    // The farthest query stops the round at once: only it is answered.
    assert_eq!(replies, vec![true, false, false]);
}

#[test]
fn apply_answers_every_query_when_none_stops() {
    let mut guru = ControllerGuru::new();
    guru.pointing(fxi(1), false);
    guru.pointing(fxi(3), false);
    guru.pointing(fxi(2), false);
    let replies = guru.apply();
    assert_eq!(replies, vec![true, true, true]);
}

#[test]
fn blocking_drops_all_queries() {
    let mut guru = ControllerGuru::new();
    guru.pointing(fxi(1), false);
    guru.block_pointing();
    assert!(guru.blocked);
    assert_eq!(guru.pointing(fxi(2), false), None);
    let replies = guru.apply();
    assert_eq!(replies, Vec::<bool>::new());
}

#[test]
fn both_controllers_decide_independently() {
    let mut guru = VrGuru::new();
    guru.primary.pointing(fxi(1), true);
    guru.primary.pointing(fxi(2), false);
    guru.secondary.pointing(fxi(3), false);
    let (primary, secondary) = guru.apply();
    assert_eq!(primary, vec![true, true]);
    assert_eq!(secondary, vec![true]);
}
