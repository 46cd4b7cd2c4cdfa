//! Laws of the curve state machine, stated and proved over the ghost mirror.
//!
//! Each proof function here is a claim a user of the engine can rely on:
//! holding a value is invariant under stepping; a slide reaches its target;
//! bounded curves expire into a fixed state after their window has been
//! consumed, however the elapsed time was split; switches count down;
//! quadratic blends of scalars interpolate their endpoints; normalization is
//! idempotent; and only the fixed state is steady.
//!
//! Where a law needs the blend of a value type to be exact at the weights
//! zero and one, that premise is stated explicitly
//! ([`keeps_first_at_zero`], [`reaches_second_at_one`]) and proved for
//! scalars, vectors, points, translations and plain quaternions. The unit
//! rotation adapter renormalizes on close, rounds, and does not satisfy it.

use vstd::prelude::*;
use crate::animation::{entries_wf, AnimModel, CurveFn, SeqModel};
use crate::fixed::{
    fx, fx_div, fx_sub, lemma_fx_div_self, lemma_fx_div_zero, lemma_fx_mul_half,
    lemma_fx_mul_one, lemma_fx_mul_quarter, lemma_fx_mul_zero, Fx, SCALE,
};
use crate::mix::{spec_linear, spec_quadratic, Mixable};
use crate::rotation::Quaternion;
use crate::vector::{Point3, Translation3, Vector3};

verus! {

/// The state reached after stepping by each delta of `ds` in order.
pub open spec fn spec_step_all<V: Mixable, F: CurveFn<V>>(
    m: AnimModel<V, F>,
    ds: Seq<Fx>,
) -> AnimModel<V, F>
    decreases ds.len(),
{
    if ds.len() == 0 {
        m
    } else {
        spec_step_all(m.spec_step(ds[0]), ds.drop_first())
    }
}

/// The total raw count of a sequence of deltas.
pub open spec fn sum_of(ds: Seq<Fx>) -> int
    decreases ds.len(),
{
    if ds.len() == 0 {
        0
    } else {
        ds[0]@ + sum_of(ds.drop_first())
    }
}

/// Whether every delta of a sequence is non-negative.
pub open spec fn all_nonneg(ds: Seq<Fx>) -> bool {
    forall|i: int| 0 <= i < ds.len() ==> 0 <= ds[i]@
}

/// A sum of non-negative deltas is non-negative.
pub proof fn lemma_sum_nonneg(ds: Seq<Fx>)
    requires
        all_nonneg(ds),
    ensures
        0 <= sum_of(ds),
    decreases ds.len(),
{
    if ds.len() > 0 {
        assert(all_nonneg(ds.drop_first())) by {
            assert(forall|i: int|
                0 <= i < ds.drop_first().len() ==> ds.drop_first()[i] == ds[i + 1]);
        }
        lemma_sum_nonneg(ds.drop_first());
    }
}

/// Whether a state contains no stateful-recurrence curve, whose output under
/// a zero-length step is up to its callable.
pub open spec fn stepfree<V: Mixable, F: CurveFn<V>>(m: AnimModel<V, F>) -> bool
    decreases m,
{
    match m {
        AnimModel::StepFunc(_, _) => false,
        AnimModel::Sequence(q) => entries_stepfree(q.entries),
        _ => true,
    }
}

/// Whether every entry of a queue is free of stateful-recurrence curves.
pub open spec fn entries_stepfree<V: Mixable, F: CurveFn<V>>(
    s: Seq<(AnimModel<V, F>, Fx)>,
) -> bool
    decreases s,
{
    s.len() == 0 || (stepfree(s[0].0) && entries_stepfree(s.drop_first()))
}

/// Whether blending with factor zero returns the first value exactly.
pub open spec fn keeps_first_at_zero<V: Mixable>() -> bool {
    forall|x: V, y: V| #[trigger] spec_linear::<V, V::Mixer>(x, y, fx(0)) == x
}

/// Whether blending with factor one returns the second value exactly.
pub open spec fn reaches_second_at_one<V: Mixable>() -> bool {
    forall|x: V, y: V| #[trigger] spec_linear::<V, V::Mixer>(x, y, fx(SCALE as int)) == y
}

/// Scalar blending is exact at the weights zero and one.
pub proof fn lemma_scalar_blend_exact()
    ensures
        keeps_first_at_zero::<Fx>(),
        reaches_second_at_one::<Fx>(),
{
    assert forall|x: Fx, y: Fx| #[trigger] spec_linear::<Fx, Fx>(x, y, fx(0)) == x by {
        lemma_fx_mul_one(x@);
        lemma_fx_mul_zero(y@);
    }
    assert forall|x: Fx, y: Fx| #[trigger] spec_linear::<Fx, Fx>(x, y, fx(SCALE as int)) == y by {
        lemma_fx_mul_zero(x@);
        lemma_fx_mul_one(y@);
    }
}

/// Vector blending is exact at the weights zero and one, component by
/// component.
pub proof fn lemma_vector_blend_exact()
    ensures
        keeps_first_at_zero::<Vector3>(),
        reaches_second_at_one::<Vector3>(),
{
    assert forall|x: Vector3, y: Vector3| #[trigger] spec_linear::<Vector3, Vector3>(
        x,
        y,
        fx(0),
    ) == x by {
        lemma_fx_mul_one(x.x@);
        lemma_fx_mul_one(x.y@);
        lemma_fx_mul_one(x.z@);
        lemma_fx_mul_zero(y.x@);
        lemma_fx_mul_zero(y.y@);
        lemma_fx_mul_zero(y.z@);
    }
    assert forall|x: Vector3, y: Vector3| #[trigger] spec_linear::<Vector3, Vector3>(
        x,
        y,
        fx(SCALE as int),
    ) == y by {
        lemma_fx_mul_zero(x.x@);
        lemma_fx_mul_zero(x.y@);
        lemma_fx_mul_zero(x.z@);
        lemma_fx_mul_one(y.x@);
        lemma_fx_mul_one(y.y@);
        lemma_fx_mul_one(y.z@);
    }
}

/// Point blending is exact at the weights zero and one.
pub proof fn lemma_point_blend_exact()
    ensures
        keeps_first_at_zero::<Point3>(),
        reaches_second_at_one::<Point3>(),
{
    assert forall|x: Point3, y: Point3| #[trigger] spec_linear::<Point3, Vector3>(x, y, fx(0))
        == x by {
        lemma_fx_mul_one(x.coords.x@);
        lemma_fx_mul_one(x.coords.y@);
        lemma_fx_mul_one(x.coords.z@);
        lemma_fx_mul_zero(y.coords.x@);
        lemma_fx_mul_zero(y.coords.y@);
        lemma_fx_mul_zero(y.coords.z@);
    }
    assert forall|x: Point3, y: Point3| #[trigger] spec_linear::<Point3, Vector3>(
        x,
        y,
        fx(SCALE as int),
    ) == y by {
        lemma_fx_mul_zero(x.coords.x@);
        lemma_fx_mul_zero(x.coords.y@);
        lemma_fx_mul_zero(x.coords.z@);
        lemma_fx_mul_one(y.coords.x@);
        lemma_fx_mul_one(y.coords.y@);
        lemma_fx_mul_one(y.coords.z@);
    }
}

/// Translation blending is exact at the weights zero and one.
pub proof fn lemma_translation_blend_exact()
    ensures
        keeps_first_at_zero::<Translation3>(),
        reaches_second_at_one::<Translation3>(),
{
    assert forall|x: Translation3, y: Translation3| #[trigger] spec_linear::<
        Translation3,
        Vector3,
    >(x, y, fx(0)) == x by {
        lemma_fx_mul_one(x.vector.x@);
        lemma_fx_mul_one(x.vector.y@);
        lemma_fx_mul_one(x.vector.z@);
        lemma_fx_mul_zero(y.vector.x@);
        lemma_fx_mul_zero(y.vector.y@);
        lemma_fx_mul_zero(y.vector.z@);
    }
    assert forall|x: Translation3, y: Translation3| #[trigger] spec_linear::<
        Translation3,
        Vector3,
    >(x, y, fx(SCALE as int)) == y by {
        lemma_fx_mul_zero(x.vector.x@);
        lemma_fx_mul_zero(x.vector.y@);
        lemma_fx_mul_zero(x.vector.z@);
        lemma_fx_mul_one(y.vector.x@);
        lemma_fx_mul_one(y.vector.y@);
        lemma_fx_mul_one(y.vector.z@);
    }
}

/// Plain quaternion blending is exact at the weights zero and one. The unit
/// rotation adapter renormalizes on close and is not exact in this sense.
pub proof fn lemma_quaternion_blend_exact()
    ensures
        keeps_first_at_zero::<Quaternion>(),
        reaches_second_at_one::<Quaternion>(),
{
    assert forall|x: Quaternion, y: Quaternion| #[trigger] spec_linear::<Quaternion, Quaternion>(
        x,
        y,
        fx(0),
    ) == x by {
        lemma_fx_mul_one(x.w@);
        lemma_fx_mul_one(x.x@);
        lemma_fx_mul_one(x.y@);
        lemma_fx_mul_one(x.z@);
        lemma_fx_mul_zero(y.w@);
        lemma_fx_mul_zero(y.x@);
        lemma_fx_mul_zero(y.y@);
        lemma_fx_mul_zero(y.z@);
    }
    assert forall|x: Quaternion, y: Quaternion| #[trigger] spec_linear::<Quaternion, Quaternion>(
        x,
        y,
        fx(SCALE as int),
    ) == y by {
        lemma_fx_mul_zero(x.w@);
        lemma_fx_mul_zero(x.x@);
        lemma_fx_mul_zero(x.y@);
        lemma_fx_mul_zero(x.z@);
        lemma_fx_mul_one(y.w@);
        lemma_fx_mul_one(y.x@);
        lemma_fx_mul_one(y.y@);
        lemma_fx_mul_one(y.z@);
    }
}

/// Holding a value is invariant: however often and by whatever deltas a
/// fixed state is stepped, it stays the same fixed state and emits the value
/// it holds.
pub proof fn lemma_fixed_invariant<V: Mixable, F: CurveFn<V>>(v: V, ds: Seq<Fx>)
    ensures
        spec_step_all(AnimModel::<V, F>::Fixed(v), ds) == AnimModel::<V, F>::Fixed(v),
        spec_step_all(AnimModel::<V, F>::Fixed(v), ds).spec_now() == v,
    decreases ds.len(),
{
    if ds.len() > 0 {
        lemma_fixed_invariant::<V, F>(v, ds.drop_first());
    }
}

/// Stepping a slide within its window blends the start toward the target by
/// the consumed share of the window, and shortens the window by the delta.
pub proof fn lemma_slide_step<V: Mixable, F: CurveFn<V>>(a: V, b: V, t: Fx, dt: Fx)
    requires
        0 <= dt@ <= t@,
    ensures
        AnimModel::<V, F>::Slide(a, b, t).spec_step(dt) == AnimModel::<V, F>::Slide(
            spec_linear::<V, V::Mixer>(a, b, fx(fx_div(dt@, t@))),
            b,
            fx(t@ - dt@),
        ),
        AnimModel::<V, F>::Slide(a, b, t).spec_step(dt).spec_now() == spec_linear::<V, V::Mixer>(
            a,
            b,
            fx(fx_div(dt@, t@)),
        ),
{
}

/// Stepping a slide by its whole window leaves it emitting the target.
pub proof fn lemma_slide_full_step<V: Mixable, F: CurveFn<V>>(a: V, b: V, t: Fx)
    requires
        reaches_second_at_one::<V>(),
        0 < t@,
    ensures
        AnimModel::<V, F>::Slide(a, b, t).spec_step(t).spec_now() == b,
{
    lemma_fx_div_self(t@);
    assert(fx(fx_div(t@, t@)) == fx(SCALE as int));
}

/// A bounded linear curve holds its start value while its window has not
/// opened.
pub proof fn lemma_bounded_linear_start<V: Mixable, F: CurveFn<V>>(a: V, b: V, s: Fx, t: Fx)
    requires
        0 < s@,
    ensures
        AnimModel::<V, F>::BoundedLinear(a, b, s, t).spec_now() == a,
{
}

/// Consuming exactly the whole window of a bounded linear curve, split into
/// any number of non-negative steps, leaves the curve at its end of window
/// emitting the end value.
pub proof fn lemma_bounded_linear_cumulative<V: Mixable, F: CurveFn<V>>(
    a: V,
    b: V,
    s: Fx,
    t: Fx,
    ds: Seq<Fx>,
)
    requires
        reaches_second_at_one::<V>(),
        s@ < t@,
        i64::MIN <= s@ - t@,
        all_nonneg(ds),
        sum_of(ds) == t@,
    ensures
        spec_step_all(AnimModel::<V, F>::BoundedLinear(a, b, s, t), ds)
            == AnimModel::<V, F>::BoundedLinear(a, b, fx(s@ - t@), fx(0)),
        spec_step_all(AnimModel::<V, F>::BoundedLinear(a, b, s, t), ds).spec_now() == b,
    decreases ds.len(),
{
    if ds.len() == 0 {
        assert(t@ == 0);
        assert(fx(s@ - t@) == s);
        lemma_fx_div_self(s@);
        assert(fx(fx_div(s@, fx_sub(s@, 0))) == fx(SCALE as int));
    } else {
        let d = ds[0];
        assert(0 <= d@) by {
            assert(all_nonneg(ds));
        }
        assert(all_nonneg(ds.drop_first())) by {
            assert(forall|i: int|
                0 <= i < ds.drop_first().len() ==> ds.drop_first()[i] == ds[i + 1]);
        }
        lemma_sum_nonneg(ds.drop_first());
        assert(d@ <= t@);
        let s2 = fx(s@ - d@);
        let t2 = fx(t@ - d@);
        lemma_bounded_linear_cumulative::<V, F>(a, b, s2, t2, ds.drop_first());
    }
}

/// Once its window is consumed, any further positive step snaps a bounded
/// linear curve to the fixed end value.
pub proof fn lemma_bounded_linear_expires<V: Mixable, F: CurveFn<V>>(
    a: V,
    b: V,
    s: Fx,
    t: Fx,
    d: Fx,
)
    requires
        t@ < d@,
    ensures
        AnimModel::<V, F>::BoundedLinear(a, b, s, t).spec_step(d) == AnimModel::<V, F>::Fixed(b),
{
}

/// A switch emits its first value and counts down until the delta exceeds
/// the remaining time, then snaps to the fixed second value.
pub proof fn lemma_switch_step<V: Mixable, F: CurveFn<V>>(a: V, b: V, t: Fx, dt: Fx)
    requires
        0 <= dt@,
    ensures
        dt@ > t@ ==> AnimModel::<V, F>::Switch(a, b, t).spec_step(dt) == AnimModel::<V, F>::Fixed(
            b,
        ),
        dt@ <= t@ ==> AnimModel::<V, F>::Switch(a, b, t).spec_step(dt)
            == AnimModel::<V, F>::Switch(a, b, fx(t@ - dt@)),
        dt@ <= t@ ==> AnimModel::<V, F>::Switch(a, b, t).spec_step(dt).spec_now() == a,
{
}

/// A switch stepped by non-negative deltas that together stay within its
/// remaining time is still the same switch with the total subtracted, and so
/// still not steady.
pub proof fn lemma_switch_cumulative<V: Mixable, F: CurveFn<V>>(a: V, b: V, t: Fx, ds: Seq<Fx>)
    requires
        0 <= t@,
        all_nonneg(ds),
        sum_of(ds) <= t@,
    ensures
        spec_step_all(AnimModel::<V, F>::Switch(a, b, t), ds) == AnimModel::<V, F>::Switch(
            a,
            b,
            fx(t@ - sum_of(ds)),
        ),
        !spec_step_all(AnimModel::<V, F>::Switch(a, b, t), ds).spec_steady(),
    decreases ds.len(),
{
    if ds.len() == 0 {
        assert(fx(t@) == t);
    } else {
        let d = ds[0];
        assert(0 <= d@) by {
            assert(all_nonneg(ds));
        }
        assert(all_nonneg(ds.drop_first())) by {
            assert(forall|i: int|
                0 <= i < ds.drop_first().len() ==> ds.drop_first()[i] == ds[i + 1]);
        }
        lemma_sum_nonneg(ds.drop_first());
        lemma_switch_cumulative::<V, F>(a, b, fx(t@ - d@), ds.drop_first());
    }
}

/// The quadratic Bezier blend of scalars starts at its first control point
/// and ends at its last.
pub proof fn lemma_quadratic_bezier_ends(a: Fx, b: Fx, c: Fx)
    ensures
        spec_quadratic::<Fx, Fx>(a, b, c, fx(0)) == a,
        spec_quadratic::<Fx, Fx>(a, b, c, fx(SCALE as int)) == c,
{
    lemma_fx_mul_one(a@);
    lemma_fx_mul_zero(b@);
    lemma_fx_mul_zero(c@);
    lemma_fx_mul_zero(a@);
    lemma_fx_mul_one(c@);
    lemma_fx_mul_one(0);
    lemma_fx_mul_zero(0);
    lemma_fx_mul_one(SCALE as int);
    lemma_fx_mul_one(2 * (SCALE as int));
    lemma_fx_mul_zero(2 * (SCALE as int));
}

/// At the middle of its window, the quadratic Bezier blend of scalars whose
/// raw counts divide evenly is the exact weighted sum of its control points,
/// with weights one quarter, one half and one quarter.
pub proof fn lemma_quadratic_bezier_half(a: Fx, b: Fx, c: Fx)
    requires
        a@ % 4 == 0,
        b@ % 2 == 0,
        c@ % 4 == 0,
    ensures
        spec_quadratic::<Fx, Fx>(a, b, c, fx((SCALE as int) / 2)) == fx(
            a@ / 4 + b@ / 2 + c@ / 4,
        ),
{
    lemma_fx_mul_quarter(a@);
    lemma_fx_mul_half(b@);
    lemma_fx_mul_quarter(c@);
    let s = fx_sub(SCALE as int, (SCALE as int) / 2);
    assert(s == (SCALE as int) / 2);
    lemma_fx_mul_half((SCALE as int) / 2);
    assert(crate::fixed::fx_mul(s, s) == (SCALE as int) / 4);
    lemma_fx_mul_half(2 * (SCALE as int));
    lemma_fx_mul_half(SCALE as int);
    assert(crate::fixed::fx_mul(crate::fixed::fx_mul(2 * (SCALE as int), s), (SCALE as int) / 2)
        == (SCALE as int) / 2);
    assert(-0x2000_0000_0000_0000 <= a@ / 4 <= 0x2000_0000_0000_0000) by (nonlinear_arith)
        requires
            -0x8000_0000_0000_0000 <= a@ <= 0x7fff_ffff_ffff_ffff,
    ;
    assert(-0x4000_0000_0000_0000 <= b@ / 2 <= 0x4000_0000_0000_0000) by (nonlinear_arith)
        requires
            -0x8000_0000_0000_0000 <= b@ <= 0x7fff_ffff_ffff_ffff,
    ;
    assert(-0x2000_0000_0000_0000 <= c@ / 4 <= 0x2000_0000_0000_0000) by (nonlinear_arith)
        requires
            -0x8000_0000_0000_0000 <= c@ <= 0x7fff_ffff_ffff_ffff,
    ;
}

/// Only the fixed state is steady.
pub proof fn lemma_steady_only_fixed<V: Mixable, F: CurveFn<V>>(m: AnimModel<V, F>)
    ensures
        m.spec_steady() <==> m is Fixed,
{
}

/// After any step of a state free of stateful recurrences, a further
/// zero-length step changes nothing, provided blending keeps the first value
/// exactly at factor zero.
pub proof fn lemma_zero_after_step<V: Mixable, F: CurveFn<V>>(m: AnimModel<V, F>, dt: Fx)
    requires
        keeps_first_at_zero::<V>(),
        stepfree(m),
        0 <= dt@,
    ensures
        m.spec_step(dt).spec_step(fx(0)) == m.spec_step(dt),
    decreases m,
{
    match m {
        AnimModel::Slide(a, b, t) => {
            if dt@ <= t@ {
                lemma_fx_div_zero(fx_sub(t@, dt@));
                assert(fx(fx_div(0, fx_sub(t@, dt@))) == fx(0));
            }
        },
        AnimModel::Sequence(q) => {
            lemma_seq_zero_after_step(q, dt);
        },
        _ => (),
    }
}

/// After any step of a sequence of states free of stateful recurrences, a
/// further zero-length step changes nothing.
pub proof fn lemma_seq_zero_after_step<V: Mixable, F: CurveFn<V>>(q: SeqModel<V, F>, dt: Fx)
    requires
        keeps_first_at_zero::<V>(),
        entries_stepfree(q.entries),
        0 <= dt@,
    ensures
        q.spec_step(dt).spec_step(fx(0)) == q.spec_step(dt),
    decreases q.entries,
{
    if q.entries.len() == 0 {
    } else {
        let a = q.entries[0].0;
        let t = q.entries[0].1;
        if dt@ > t@ {
            lemma_seq_zero_after_step(
                SeqModel { entries: q.entries.drop_first(), end: q.end },
                fx(fx_sub(dt@, t@)),
            );
        } else {
            lemma_zero_after_step(a, dt);
            let y = q.spec_step(dt);
            let a2 = a.spec_step(dt);
            let t2 = fx(fx_sub(t@, dt@));
            assert(y.entries[0] == (a2, t2));
            assert(fx(fx_sub(t2@, 0)) == t2);
            assert(y.entries.update(0, (a2.spec_step(fx(0)), fx(fx_sub(t2@, 0))))
                =~= y.entries);
        }
    }
}

/// Normalization is idempotent: for states free of stateful recurrences,
/// over a value type whose blend keeps the first value exactly at factor
/// zero, normalizing a normalized state changes neither the state, nor what
/// it emits, nor whether it is steady.
pub proof fn lemma_normalize_idempotent<V: Mixable, F: CurveFn<V>>(m: AnimModel<V, F>)
    requires
        keeps_first_at_zero::<V>(),
        stepfree(m),
    ensures
        m.spec_step(fx(0)).spec_step(fx(0)) == m.spec_step(fx(0)),
        m.spec_step(fx(0)).spec_step(fx(0)).spec_now() == m.spec_step(fx(0)).spec_now(),
        m.spec_step(fx(0)).spec_step(fx(0)).spec_steady() == m.spec_step(fx(0)).spec_steady(),
{
    lemma_zero_after_step(m, fx(0));
}

} // verus!
