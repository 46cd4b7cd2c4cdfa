use tween::fixed::{Fx, SCALE};
use tween::mix::Mixable;
use tween::rotation::{Quaternion, UnitQuaternion};
use tween::transform::{Isometry3, Similarity3};
use tween::vector::{Point3, Translation3, Vector3};

fn fxi(v: i64) -> Fx {
    Fx::from_int(v)
}

fn fxr(raw: i64) -> Fx {
    Fx::new(raw)
}

#[test]
fn linear_scalar_blend() {
    let r = Fx::linear(&fxi(2), &fxi(6), fxr(SCALE / 4));
    assert_eq!(r, fxi(3));
}

#[test]
fn quadratic_scalar_blend_hits_its_endpoints() {
    let (a, b, c) = (fxi(1), fxi(2), fxi(5));
    assert_eq!(Fx::quadratic(&a, &b, &c, fxi(0)), a);
    assert_eq!(Fx::quadratic(&a, &b, &c, fxi(1)), c);
}

#[test]
fn quadratic_scalar_blend_at_the_middle() {
    // 0.25 * 1 + 0.5 * 2 + 0.25 * 5 = 2.5.
    let r = Fx::quadratic(&fxi(1), &fxi(2), &fxi(5), fxr(SCALE / 2));
    assert_eq!(r, fxr(5 * SCALE / 2));
}

#[test]
fn cubic_scalar_blend_hits_its_endpoints() {
    let (a, b, c, d) = (fxi(1), fxi(2), fxi(5), fxi(9));
    assert_eq!(Fx::cubic(&a, &b, &c, &d, fxi(0)), a);
    assert_eq!(Fx::cubic(&a, &b, &c, &d, fxi(1)), d);
}

#[test]
fn cubic_scalar_blend_at_the_middle() {
    // (1 + 3*2 + 3*5 + 9) / 8 = 31 / 8.
    let r = Fx::cubic(&fxi(1), &fxi(2), &fxi(5), &fxi(9), fxr(SCALE / 2));
    assert_eq!(r, fxr(31 * SCALE / 8));
}

#[test]
fn weighted_scalar_mix() {
    // 3.0 at weight 0.25 with 7.0 at weight 0.75 is 6.0.
    let items = vec![(fxi(3), fxr(SCALE / 4)), (fxi(7), fxr(3 * SCALE / 4))];
    assert_eq!(Fx::mix(&items), fxi(6));
}

#[test]
fn weighted_mix_of_many_parts() {
    let w = fxr(SCALE / 4);
    let items = vec![(fxi(1), w), (fxi(2), w), (fxi(3), w), (fxi(10), w)];
    assert_eq!(Fx::mix(&items), fxi(4));
}

#[test]
fn vectors_blend_componentwise() {
    let a = Vector3::new(fxi(0), fxi(2), fxi(-4));
    let b = Vector3::new(fxi(4), fxi(0), fxi(4));
    let r = Vector3::linear(&a, &b, fxr(SCALE / 2));
    assert_eq!(r, Vector3::new(fxi(2), fxi(1), fxi(0)));
}

#[test]
fn points_blend_via_their_coordinates() {
    let a = Point3::new(fxi(0), fxi(0), fxi(0));
    let b = Point3::new(fxi(8), fxi(4), fxi(-2));
    let r = Point3::linear(&a, &b, fxr(SCALE / 4));
    assert_eq!(r, Point3::new(fxi(2), fxi(1), fxr(-SCALE / 2)));
}

#[test]
fn translations_blend_via_their_vectors() {
    let a = Translation3::new(fxi(0), fxi(0), fxi(0));
    let b = Translation3::new(fxi(2), fxi(-2), fxi(6));
    let r = Translation3::linear(&a, &b, fxr(SCALE / 2));
    assert_eq!(r, Translation3::new(fxi(1), fxi(-1), fxi(3)));
}

#[test]
fn quaternions_blend_componentwise() {
    let a = Quaternion::new(fxi(1), fxi(0), fxi(0), fxi(0));
    let b = Quaternion::new(fxi(0), fxi(1), fxi(0), fxi(0));
    let r = Quaternion::linear(&a, &b, fxr(SCALE / 2));
    assert_eq!(r, Quaternion::new(fxr(SCALE / 2), fxr(SCALE / 2), fxi(0), fxi(0)));
}

#[test]
fn unit_rotations_renormalize_on_close() {
    // Blending a rotation with itself renormalizes back to it.
    let i = UnitQuaternion::identity();
    let r = UnitQuaternion::linear(&i, &i, fxr(SCALE / 2));
    assert_eq!(r, i);
}

#[test]
fn unit_rotation_blend_renormalizes_the_weighted_sum() {
    // Two unit rotations mixed half and half: the raw sum has magnitude
    // sqrt(1/2 + 1/2)... here w = x = 1/2, magnitude sqrt(1/2), and the
    // normalized components are 1/2 divided by it.
    let a = UnitQuaternion::new_unchecked(Quaternion::new(fxi(1), fxi(0), fxi(0), fxi(0)));
    let b = UnitQuaternion::new_unchecked(Quaternion::new(fxi(0), fxi(1), fxi(0), fxi(0)));
    let r = UnitQuaternion::linear(&a, &b, fxr(SCALE / 2));
    // isqrt(32768 * 65536) = 46340; 32768 * 65536 / 46340 = 46341.
    assert_eq!(r.q.w, fxr(46341));
    assert_eq!(r.q.x, fxr(46341));
    assert_eq!(r.q.y, fxi(0));
    assert_eq!(r.q.z, fxi(0));
}

#[test]
fn degenerate_rotation_blend_wraps_unchecked() {
    // A single contribution of weight zero accumulates to the zero
    // quaternion; its magnitude is zero, so the close wraps the raw sum
    // unchecked rather than failing.
    let a = UnitQuaternion::identity();
    let items: Vec<(UnitQuaternion, Fx)> = vec![(a, fxi(0))];
    let z = UnitQuaternion::mix(&items);
    assert_eq!(z.q, Quaternion::zero());
    // A blend whose weights are one and zero still has a unit sum, and
    // normalizes back to the rotation itself.
    let r = UnitQuaternion::linear(&a, &a, fxi(0));
    assert_eq!(r, a);
}

#[test]
fn rigid_transforms_blend_their_parts_independently() {
    let a = Isometry3::from_parts(
        Translation3::new(fxi(0), fxi(0), fxi(0)),
        UnitQuaternion::identity(),
    );
    let b = Isometry3::from_parts(
        Translation3::new(fxi(4), fxi(8), fxi(0)),
        UnitQuaternion::identity(),
    );
    let r = Isometry3::linear(&a, &b, fxr(SCALE / 2));
    assert_eq!(r.translation, Translation3::new(fxi(2), fxi(4), fxi(0)));
    assert_eq!(r.rotation, UnitQuaternion::identity());
}

#[test]
fn similarity_transforms_blend_a_scale_channel_too() {
    let a = Similarity3::from_isometry(Isometry3::identity(), fxi(1));
    let b = Similarity3::from_isometry(Isometry3::identity(), fxi(3));
    let r = Similarity3::linear(&a, &b, fxr(SCALE / 2));
    assert_eq!(r.scaling(), fxi(2));
    assert_eq!(r.isometry.rotation, UnitQuaternion::identity());
    assert_eq!(r.isometry.translation, Translation3::new(fxi(0), fxi(0), fxi(0)));
}

#[test]
fn square_roots_are_exact_on_squares() {
    assert_eq!(Fx::from_int(4).sqrt(), fxi(2));
    assert_eq!(Fx::from_int(9).sqrt(), fxi(3));
    assert_eq!(Fx::zero().sqrt(), fxi(0));
}

#[test]
fn square_roots_truncate_between_squares() {
    // sqrt(2) in units of 1/65536, truncated: 92681.
    assert_eq!(Fx::from_int(2).sqrt(), fxr(92681));
}
