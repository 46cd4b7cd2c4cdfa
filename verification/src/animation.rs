//! The curve state machine and timed sequences.
//!
//! An [`Animate`] is a tagged value representing one of many interpolation,
//! switch or function-driven curves over a blend-capable value type. An
//! [`AnimateSequence`] is an ordered list of curve states with individual
//! durations plus a terminal value. Both implement the [`Animation`]
//! contract: query the current value, advance by a time delta, normalize,
//! and test for the steady (terminal) state.
//!
//! Every `step` produces a complete replacement state; the timing fields of
//! the bounded and switch variants are countdowns, and crossing zero snaps
//! the state to a terminal [`Animate::Fixed`].
//!
//! The whole machine is specified against a ghost mirror, [`AnimModel`]: the
//! view of a curve state, in which a sequence's queue is a mathematical
//! sequence. Each executable operation is pinned to a spec function on the
//! model.

use vstd::prelude::*;
use crate::fixed::{fx, fx_add, fx_div, fx_mul, fx_sub, spec_powi, Fx, SCALE};
use crate::mix::{spec_cubic, spec_linear, spec_quadratic, Mixable};

verus! {

/// A real blend factor, conventionally in `[0, 1]`; several curve variants
/// deliberately let it run outside that range (extrapolation).
pub type Param = Fx;

/// A non-negative number of seconds.
pub type Time = Fx;

/// Elapsed seconds handed to `step`.
pub type DeltaTime = Fx;

/// An externally supplied callable driving the function-driven curve
/// variants. One implementation may serve the value role (`Func`), the
/// blend-factor role (`MixFunc`), the recurrence role (`StepFunc`), or any
/// combination; the `drives_*` predicates say which calls it accepts, and
/// the three spec functions give the exact results.
pub trait CurveFn<V>: Sized + Clone {
    /// Whether this callable serves the value-producing role.
    open spec fn drives_value(&self) -> bool {
        true
    }

    /// Whether this callable serves the blend-factor role.
    open spec fn drives_mix(&self) -> bool {
        true
    }

    /// Whether this callable serves the stateful-recurrence role.
    open spec fn drives_step(&self) -> bool {
        true
    }

    /// The value produced at time `t`.
    spec fn value_at(&self, t: Time) -> V;

    /// The blend factor produced at time `t`.
    spec fn mix_at(&self, t: Time) -> Param;

    /// The value the recurrence turns `v` into after `dt` seconds.
    spec fn step_at(&self, v: V, dt: DeltaTime) -> V;

    /// Evaluate the value role.
    fn eval_value(&self, t: Time) -> (r: V)
        requires
            self.drives_value(),
        ensures
            r == self.value_at(t),
    ;

    /// Evaluate the blend-factor role.
    fn eval_mix(&self, t: Time) -> (r: Param)
        requires
            self.drives_mix(),
        ensures
            r == self.mix_at(t),
    ;

    /// Evaluate the recurrence role.
    fn eval_step(&self, v: V, dt: DeltaTime) -> (r: V)
        requires
            self.drives_step(),
        ensures
            r == self.step_at(v, dt),
    ;
}

/// The ghost mirror of an [`Animate`] state. Variants carry the same control
/// points and countdowns; a sequence is mirrored as a mathematical sequence
/// of (state, remaining duration) entries plus the terminal value.
pub enum AnimModel<V: Mixable, F: CurveFn<V>> {
    /// Hold the given value.
    Fixed(V),
    /// Move from `a` to `b` over the next `t` seconds, then stop.
    Slide(V, V, Fx),
    /// Move from `a` to `b`, outputting `a` after `s` seconds then `b` after
    /// `t` seconds, extrapolating outside that window.
    Linear(V, V, Fx, Fx),
    /// As `Linear`, through the curve `a`, `b`, `c`.
    Quadratic(V, V, V, Fx, Fx),
    /// As `Linear`, through the curve `a`, `b`, `c`, `d`.
    Cubic(V, V, V, V, Fx, Fx),
    /// Move from `a` to `b`, starting after `s` seconds and ending after `t`
    /// seconds, holding the nearer end outside that window.
    BoundedLinear(V, V, Fx, Fx),
    /// As `BoundedLinear`, through the curve `a`, `b`, `c`.
    BoundedQuadratic(V, V, V, Fx, Fx),
    /// As `BoundedLinear`, through the curve `a`, `b`, `c`, `d`.
    BoundedCubic(V, V, V, V, Fx, Fx),
    /// Switch from `a` to `b` after `t` seconds.
    Switch(V, V, Fx),
    /// Switch smoothly from `a` to `b` between `s` and `t` seconds from now.
    SmoothSwitch(V, V, Fx, Fx),
    /// Switch softly from `a` to `b` with shape exponent `e` between `s` and
    /// `t` seconds from now.
    SoftSwitch(V, V, i32, Fx, Fx),
    /// Output `f(x)` starting with `x = t`.
    Func(F, Fx),
    /// `f(x)` mixes between `a` and `b` starting with `x = t`.
    MixFunc(F, V, V, Fx),
    /// `f(v, dt)` is repeatedly applied to `v` every step.
    StepFunc(F, V),
    /// Play a sequence of animations.
    Sequence(SeqModel<V, F>),
}

/// The ghost mirror of an [`AnimateSequence`].
pub struct SeqModel<V: Mixable, F: CurveFn<V>> {
    /// The queued (state, remaining duration) entries, front first.
    pub entries: Seq<(AnimModel<V, F>, Fx)>,
    /// The value to hold once the queue is empty.
    pub end: V,
}

impl<V: Mixable, F: CurveFn<V>> AnimModel<V, F> {
    /// Whether every stored callable serves the role its variant calls.
    pub open spec fn wf(self) -> bool
        decreases self,
    {
        match self {
            AnimModel::Func(f, _) => f.drives_value(),
            AnimModel::MixFunc(f, _, _, _) => f.drives_mix(),
            AnimModel::StepFunc(f, _) => f.drives_step(),
            AnimModel::Sequence(q) => entries_wf(q.entries),
            _ => true,
        }
    }

    /// The blend factor `s / (s - t)` of the windowed variants.
    pub open spec fn window_param(s: Fx, t: Fx) -> Fx {
        fx(fx_div(s@, fx_sub(s@, t@)))
    }

    /// The value the state currently emits.
    pub open spec fn spec_now(self) -> V
        decreases self,
    {
        match self {
            AnimModel::Fixed(x) => x,
            AnimModel::Slide(x, _, _) => x,
            AnimModel::Linear(a, b, s, t) => spec_linear::<V, V::Mixer>(
                a,
                b,
                Self::window_param(s, t),
            ),
            AnimModel::Quadratic(a, b, c, s, t) => spec_quadratic::<V, V::Mixer>(
                a,
                b,
                c,
                Self::window_param(s, t),
            ),
            AnimModel::Cubic(a, b, c, d, s, t) => spec_cubic::<V, V::Mixer>(
                a,
                b,
                c,
                d,
                Self::window_param(s, t),
            ),
            AnimModel::BoundedLinear(a, b, s, t) => if s@ > 0 {
                a
            } else {
                spec_linear::<V, V::Mixer>(a, b, Self::window_param(s, t))
            },
            AnimModel::BoundedQuadratic(a, b, c, s, t) => if s@ > 0 {
                a
            } else {
                spec_quadratic::<V, V::Mixer>(a, b, c, Self::window_param(s, t))
            },
            AnimModel::BoundedCubic(a, b, c, d, s, t) => if s@ > 0 {
                a
            } else {
                spec_cubic::<V, V::Mixer>(a, b, c, d, Self::window_param(s, t))
            },
            AnimModel::Switch(a, _, _) => a,
            AnimModel::SmoothSwitch(a, b, s, t) => if s@ > 0 {
                a
            } else {
                let x = fx_div(s@, fx_sub(s@, t@));
                let xx = fx_mul(x, x);
                spec_linear::<V, V::Mixer>(
                    a,
                    b,
                    fx(fx_sub(fx_mul(3 * (SCALE as int), xx), fx_mul(fx_mul(2 * (SCALE as int), xx), x))),
                )
            },
            AnimModel::SoftSwitch(a, b, e, s, t) => if s@ > 0 {
                a
            } else {
                let x = fx_div(s@, fx_sub(s@, t@));
                spec_linear::<V, V::Mixer>(a, b, spec_powi(fx(fx_sub(SCALE as int, x)), e as int))
            },
            AnimModel::Func(f, t) => f.value_at(t),
            AnimModel::MixFunc(f, a, b, t) => spec_linear::<V, V::Mixer>(a, b, f.mix_at(t)),
            AnimModel::StepFunc(_, v) => v,
            AnimModel::Sequence(q) => q.spec_now(),
        }
    }

    /// The state reached after `dt` seconds.
    pub open spec fn spec_step(self, dt: Fx) -> Self
        decreases self,
    {
        match self {
            AnimModel::Fixed(a) => AnimModel::Fixed(a),
            AnimModel::Slide(a, b, t) => if dt@ > t@ {
                AnimModel::Fixed(b)
            } else {
                AnimModel::Slide(
                    spec_linear::<V, V::Mixer>(a, b, fx(fx_div(dt@, t@))),
                    b,
                    fx(fx_sub(t@, dt@)),
                )
            },
            AnimModel::Linear(a, b, s, t) => AnimModel::Linear(
                a,
                b,
                fx(fx_sub(s@, dt@)),
                fx(fx_sub(t@, dt@)),
            ),
            AnimModel::Quadratic(a, b, c, s, t) => AnimModel::Quadratic(
                a,
                b,
                c,
                fx(fx_sub(s@, dt@)),
                fx(fx_sub(t@, dt@)),
            ),
            AnimModel::Cubic(a, b, c, d, s, t) => AnimModel::Cubic(
                a,
                b,
                c,
                d,
                fx(fx_sub(s@, dt@)),
                fx(fx_sub(t@, dt@)),
            ),
            AnimModel::BoundedLinear(a, b, s, t) => if dt@ > t@ {
                AnimModel::Fixed(b)
            } else {
                AnimModel::BoundedLinear(a, b, fx(fx_sub(s@, dt@)), fx(fx_sub(t@, dt@)))
            },
            AnimModel::BoundedQuadratic(a, b, c, s, t) => if dt@ > t@ {
                AnimModel::Fixed(c)
            } else {
                AnimModel::BoundedQuadratic(a, b, c, fx(fx_sub(s@, dt@)), fx(fx_sub(t@, dt@)))
            },
            AnimModel::BoundedCubic(a, b, c, d, s, t) => if dt@ > t@ {
                AnimModel::Fixed(d)
            } else {
                AnimModel::BoundedCubic(a, b, c, d, fx(fx_sub(s@, dt@)), fx(fx_sub(t@, dt@)))
            },
            AnimModel::Switch(a, b, t) => if dt@ > t@ {
                AnimModel::Fixed(b)
            } else {
                AnimModel::Switch(a, b, fx(fx_sub(t@, dt@)))
            },
            AnimModel::SmoothSwitch(a, b, s, t) => if dt@ > t@ {
                AnimModel::Fixed(b)
            } else {
                AnimModel::SmoothSwitch(a, b, fx(fx_sub(s@, dt@)), fx(fx_sub(t@, dt@)))
            },
            AnimModel::SoftSwitch(a, b, e, s, t) => if dt@ > t@ {
                AnimModel::Fixed(b)
            } else {
                AnimModel::SoftSwitch(a, b, e, fx(fx_sub(s@, dt@)), fx(fx_sub(t@, dt@)))
            },
            AnimModel::Func(f, s) => AnimModel::Func(f, fx(fx_add(s@, dt@))),
            AnimModel::MixFunc(f, a, b, s) => AnimModel::MixFunc(f, a, b, fx(fx_add(s@, dt@))),
            AnimModel::StepFunc(f, v) => {
                let v2 = f.step_at(v, dt);
                AnimModel::StepFunc(f, v2)
            },
            AnimModel::Sequence(q) => AnimModel::Sequence(q.spec_step(dt)),
        }
    }

    /// Whether future steps can no longer change the output: true only for
    /// `Fixed`.
    pub open spec fn spec_steady(self) -> bool {
        self is Fixed
    }
}

/// Whether every entry of a queue is well formed.
pub open spec fn entries_wf<V: Mixable, F: CurveFn<V>>(s: Seq<(AnimModel<V, F>, Fx)>) -> bool
    decreases s,
{
    s.len() == 0 || (s[0].0.wf() && entries_wf(s.drop_first()))
}

impl<V: Mixable, F: CurveFn<V>> SeqModel<V, F> {
    /// Whether every queued entry is well formed.
    pub open spec fn wf(self) -> bool {
        entries_wf(self.entries)
    }

    /// The head entry's current value, or the terminal value once the queue
    /// is empty.
    pub open spec fn spec_now(self) -> V
        decreases self,
    {
        if self.entries.len() == 0 {
            self.end
        } else {
            self.entries[0].0.spec_now()
        }
    }

    /// The sequence reached after `dt` seconds: entries whose remaining
    /// duration is exceeded are consumed, carrying the leftover delta
    /// forward; the first entry that outlasts the leftover is advanced by it
    /// and keeps the difference as its remaining duration.
    pub open spec fn spec_step(self, dt: Fx) -> Self
        decreases self.entries,
    {
        if self.entries.len() == 0 {
            self
        } else {
            let a = self.entries[0].0;
            let t = self.entries[0].1;
            if dt@ > t@ {
                SeqModel { entries: self.entries.drop_first(), end: self.end }.spec_step(
                    fx(fx_sub(dt@, t@)),
                )
            } else {
                SeqModel {
                    entries: self.entries.update(0, (a.spec_step(dt), fx(fx_sub(t@, dt@)))),
                    end: self.end,
                }
            }
        }
    }

    /// Whether the sequence ends in a steady state: the queue is empty, or
    /// its last entry is steady. Deliberately a query on the tail, not on
    /// the active head.
    pub open spec fn spec_steady(self) -> bool {
        self.entries.len() == 0 || self.entries.last().0.spec_steady()
    }
}

/// An animation state: something that emits a value now and can advance.
pub trait Animation<V>: Sized {
    /// Whether the state is well formed: every stored callable serves the
    /// role its variant calls.
    spec fn wf(self) -> bool;

    /// The value the state currently emits.
    spec fn spec_now(self) -> V;

    /// Whether `post` is the state reached from this one after `dt` seconds.
    spec fn steps_to(self, post: Self, dt: DeltaTime) -> bool;

    /// Whether future steps can no longer change the output.
    spec fn spec_steady(self) -> bool;

    /// Get the current output of the animation.
    fn now(&self) -> (r: V)
        requires
            self.wf(),
        ensures
            r == self.spec_now(),
    ;

    /// Step the animation forward.
    fn step(&mut self, dt: DeltaTime)
        requires
            old(self).wf(),
            0 <= dt@,
        ensures
            old(self).steps_to(*final(self), dt),
            final(self).wf(),
    ;

    /// Ensure that the animation is in a normal form and will not behave in
    /// an undefined way, by taking a step that consumes no time. If the
    /// animation is in a valid, nontrivial state, then this does nothing.
    ///
    /// The most common invalid state is an ended (unchanging) [`Animate`]
    /// variant which is not [`Animate::Fixed`].
    fn normalize(self) -> (r: Self)
        requires
            self.wf(),
        ensures
            self.steps_to(r, fx(0)),
            r.wf(),
    {
        let mut s = self;
        s.step(Fx::zero());
        s
    }

    /// Check if this animation has reached a steady state.
    fn steady(&self) -> (r: bool)
        ensures
            r == self.spec_steady(),
    ;
}

/// The main animation type. Provides a wide variety of animation functions;
/// each variant is described on its mirror in [`AnimModel`].
pub enum Animate<V: Mixable, F: CurveFn<V>> {
    /// Hold the given value.
    Fixed(V),
    /// Move from `a` to `b` over the next `t` seconds, then stop.
    Slide(V, V, Time),
    /// Move from `a` to `b`, outputting `a` after `s` seconds then `b` after
    /// `t` seconds.
    Linear(V, V, Time, Time),
    /// Move through the curve `a`, `b`, `c`, outputting `a` after `s`
    /// seconds then `c` after `t` seconds.
    Quadratic(V, V, V, Time, Time),
    /// Move through the curve `a`, `b`, `c`, `d`, outputting `a` after `s`
    /// seconds then `d` after `t` seconds.
    Cubic(V, V, V, V, Time, Time),
    /// Move from `a` to `b`, starting after `s` seconds then ending after
    /// `t` seconds.
    BoundedLinear(V, V, Time, Time),
    /// Move through the curve `a`, `b`, `c`, starting after `s` seconds then
    /// ending after `t` seconds.
    BoundedQuadratic(V, V, V, Time, Time),
    /// Move through the curve `a`, `b`, `c`, `d`, starting after `s` seconds
    /// then ending after `t` seconds.
    BoundedCubic(V, V, V, V, Time, Time),
    /// Switch from `a` to `b` after `t` seconds.
    Switch(V, V, Time),
    /// Switch from `a` to `b` between `s` seconds and `t` seconds from now.
    SmoothSwitch(V, V, Time, Time),
    /// Soft switch from `a` to `b` using parameter `e` between `s` seconds
    /// and `t` seconds from now.
    SoftSwitch(V, V, i32, Time, Time),
    /// Outputs `f(x)` starting with `x = t`.
    Func(F, Time),
    /// `f(x)` mixes between `a` and `b` starting with `x = t`.
    MixFunc(F, V, V, Time),
    /// `f(v, dt)` is repeatedly applied to `v` every step.
    StepFunc(F, V),
    /// Play a sequence of animations.
    Sequence(AnimateSequence<V, F>),
}

/// A sequence of different animations, each one lasting a given duration.
pub struct AnimateSequence<V: Mixable, F: CurveFn<V>> {
    /// A queue of animations to play (front first), and their remaining
    /// durations.
    pub queue: Vec<(Animate<V, F>, Time)>,
    /// The value to hold once the queue is empty.
    pub end: V,
}

/// The ghost mirror of a queue of (state, remaining duration) entries.
pub open spec fn view_entries<V: Mixable, F: CurveFn<V>>(s: Seq<(Animate<V, F>, Fx)>) -> Seq<
    (AnimModel<V, F>, Fx),
>
    decreases s,
{
    if s.len() == 0 {
        Seq::empty()
    } else {
        seq![(s[0].0.model(), s[0].1)] + view_entries(s.drop_first())
    }
}

impl<V: Mixable, F: CurveFn<V>> Animate<V, F> {
    /// The ghost mirror of this state.
    pub open spec fn model(self) -> AnimModel<V, F>
        decreases self,
    {
        match self {
            Animate::Fixed(a) => AnimModel::Fixed(a),
            Animate::Slide(a, b, t) => AnimModel::Slide(a, b, t),
            Animate::Linear(a, b, s, t) => AnimModel::Linear(a, b, s, t),
            Animate::Quadratic(a, b, c, s, t) => AnimModel::Quadratic(a, b, c, s, t),
            Animate::Cubic(a, b, c, d, s, t) => AnimModel::Cubic(a, b, c, d, s, t),
            Animate::BoundedLinear(a, b, s, t) => AnimModel::BoundedLinear(a, b, s, t),
            Animate::BoundedQuadratic(a, b, c, s, t) => AnimModel::BoundedQuadratic(a, b, c, s, t),
            Animate::BoundedCubic(a, b, c, d, s, t) => AnimModel::BoundedCubic(a, b, c, d, s, t),
            Animate::Switch(a, b, t) => AnimModel::Switch(a, b, t),
            Animate::SmoothSwitch(a, b, s, t) => AnimModel::SmoothSwitch(a, b, s, t),
            Animate::SoftSwitch(a, b, e, s, t) => AnimModel::SoftSwitch(a, b, e, s, t),
            Animate::Func(f, t) => AnimModel::Func(f, t),
            Animate::MixFunc(f, a, b, t) => AnimModel::MixFunc(f, a, b, t),
            Animate::StepFunc(f, v) => AnimModel::StepFunc(f, v),
            Animate::Sequence(q) => AnimModel::Sequence(q.model()),
        }
    }
}

impl<V: Mixable, F: CurveFn<V>> AnimateSequence<V, F> {
    /// The ghost mirror of this sequence.
    pub open spec fn model(self) -> SeqModel<V, F>
        decreases self,
    {
        SeqModel { entries: view_entries(self.queue@), end: self.end }
    }
}

impl<V: Mixable, F: CurveFn<V>> View for Animate<V, F> {
    type V = AnimModel<V, F>;

    open spec fn view(&self) -> AnimModel<V, F> {
        self.model()
    }
}

impl<V: Mixable, F: CurveFn<V>> View for AnimateSequence<V, F> {
    type V = SeqModel<V, F>;

    open spec fn view(&self) -> SeqModel<V, F> {
        self.model()
    }
}

/// The mirror of a queue has the same length, and mirrors the entries one by
/// one.
pub proof fn lemma_view_entries<V: Mixable, F: CurveFn<V>>(s: Seq<(Animate<V, F>, Fx)>)
    ensures
        view_entries(s).len() == s.len(),
        forall|i: int|
            0 <= i < s.len() ==> #[trigger] view_entries(s)[i] == (s[i].0.model(), s[i].1),
    decreases s,
{
    if s.len() > 0 {
        lemma_view_entries(s.drop_first());
    }
}

/// Every entry of a well-formed queue is well formed.
pub proof fn lemma_entries_wf_index<V: Mixable, F: CurveFn<V>>(
    s: Seq<(AnimModel<V, F>, Fx)>,
    i: int,
)
    requires
        entries_wf(s),
        0 <= i < s.len(),
    ensures
        s[i].0.wf(),
    decreases s,
{
    if i > 0 {
        lemma_entries_wf_index(s.drop_first(), i - 1);
    }
}

/// Stepping preserves well-formedness: no transition stores a callable in a
/// role it does not serve.
pub proof fn lemma_step_wf<V: Mixable, F: CurveFn<V>>(m: AnimModel<V, F>, dt: Fx)
    requires
        m.wf(),
    ensures
        m.spec_step(dt).wf(),
    decreases m,
{
    match m {
        AnimModel::Sequence(q) => lemma_seq_step_wf(q, dt),
        _ => (),
    }
}

/// Stepping a sequence preserves the well-formedness of every queued entry.
pub proof fn lemma_seq_step_wf<V: Mixable, F: CurveFn<V>>(q: SeqModel<V, F>, dt: Fx)
    requires
        entries_wf(q.entries),
    ensures
        entries_wf(q.spec_step(dt).entries),
    decreases q.entries,
{
    if q.entries.len() > 0 {
        let a = q.entries[0].0;
        let t = q.entries[0].1;
        if dt@ > t@ {
            lemma_seq_step_wf(
                SeqModel { entries: q.entries.drop_first(), end: q.end },
                fx(fx_sub(dt@, t@)),
            );
        } else {
            lemma_step_wf(a, dt);
            let upd = q.entries.update(0, (a.spec_step(dt), fx(fx_sub(t@, dt@))));
            assert(upd.drop_first() =~= q.entries.drop_first());
        }
    }
}

impl<V: Mixable, F: CurveFn<V>> Animate<V, F> {
    /// Advance a state by `dt` seconds, producing the complete replacement
    /// state.
    pub fn do_step(self, dt: DeltaTime) -> (r: Self)
        requires
            self@.wf(),
        ensures
            r@ == self@.spec_step(dt),
        decreases self,
    {
        match self {
            Animate::Fixed(a) => Animate::Fixed(a),
            Animate::Slide(a, b, t) => if dt.gt(t) {
                Animate::Fixed(b)
            } else {
                Animate::Slide(V::linear(&a, &b, dt.div(t)), b, t.sub(dt))
            },
            Animate::Linear(a, b, s, t) => Animate::Linear(a, b, s.sub(dt), t.sub(dt)),
            Animate::Quadratic(a, b, c, s, t) => Animate::Quadratic(a, b, c, s.sub(dt), t.sub(dt)),
            Animate::Cubic(a, b, c, d, s, t) => Animate::Cubic(a, b, c, d, s.sub(dt), t.sub(dt)),
            Animate::BoundedLinear(a, b, s, t) => if dt.gt(t) {
                Animate::Fixed(b)
            } else {
                Animate::BoundedLinear(a, b, s.sub(dt), t.sub(dt))
            },
            Animate::BoundedQuadratic(a, b, c, s, t) => if dt.gt(t) {
                Animate::Fixed(c)
            } else {
                Animate::BoundedQuadratic(a, b, c, s.sub(dt), t.sub(dt))
            },
            Animate::BoundedCubic(a, b, c, d, s, t) => if dt.gt(t) {
                Animate::Fixed(d)
            } else {
                Animate::BoundedCubic(a, b, c, d, s.sub(dt), t.sub(dt))
            },
            Animate::Switch(a, b, t) => if dt.gt(t) {
                Animate::Fixed(b)
            } else {
                Animate::Switch(a, b, t.sub(dt))
            },
            Animate::SmoothSwitch(a, b, s, t) => if dt.gt(t) {
                Animate::Fixed(b)
            } else {
                Animate::SmoothSwitch(a, b, s.sub(dt), t.sub(dt))
            },
            Animate::SoftSwitch(a, b, e, s, t) => if dt.gt(t) {
                Animate::Fixed(b)
            } else {
                Animate::SoftSwitch(a, b, e, s.sub(dt), t.sub(dt))
            },
            Animate::Func(f, s) => Animate::Func(f, s.add(dt)),
            Animate::MixFunc(f, a, b, s) => Animate::MixFunc(f, a, b, s.add(dt)),
            Animate::StepFunc(f, v) => {
                let v2 = f.eval_step(v, dt);
                Animate::StepFunc(f, v2)
            },
            Animate::Sequence(q) => Animate::Sequence(q.do_step(dt)),
        }
    }

    /// The value the state currently emits; the [`Animation::now`] query.
    fn current(&self) -> (r: V)
        requires
            self@.wf(),
        ensures
            r == self@.spec_now(),
        decreases self,
    {
        match self {
            Animate::Fixed(x) => *x,
            Animate::Slide(x, _, _) => *x,
            Animate::Linear(a, b, s, t) => V::linear(a, b, s.div(s.sub(*t))),
            Animate::Quadratic(a, b, c, s, t) => V::quadratic(a, b, c, s.div(s.sub(*t))),
            Animate::Cubic(a, b, c, d, s, t) => V::cubic(a, b, c, d, s.div(s.sub(*t))),
            Animate::BoundedLinear(a, b, s, t) => if s.gt(Fx::zero()) {
                *a
            } else {
                V::linear(a, b, s.div(s.sub(*t)))
            },
            Animate::BoundedQuadratic(a, b, c, s, t) => if s.gt(Fx::zero()) {
                *a
            } else {
                V::quadratic(a, b, c, s.div(s.sub(*t)))
            },
            Animate::BoundedCubic(a, b, c, d, s, t) => if s.gt(Fx::zero()) {
                *a
            } else {
                V::cubic(a, b, c, d, s.div(s.sub(*t)))
            },
            Animate::Switch(a, _, _) => *a,
            Animate::SmoothSwitch(a, b, s, t) => if s.gt(Fx::zero()) {
                *a
            } else {
                let x = s.div(s.sub(*t));
                let xx = x.mul(x);
                V::linear(a, b, Fx::from_int(3).mul(xx).sub(Fx::from_int(2).mul(xx).mul(x)))
            },
            Animate::SoftSwitch(a, b, e, s, t) => if s.gt(Fx::zero()) {
                *a
            } else {
                let x = s.div(s.sub(*t));
                V::linear(a, b, Fx::one().sub(x).powi(*e))
            },
            Animate::Func(f, t) => f.eval_value(*t),
            Animate::MixFunc(f, a, b, t) => V::linear(a, b, f.eval_mix(*t)),
            Animate::StepFunc(_, v) => *v,
            Animate::Sequence(q) => q.current(),
        }
    }
}

impl<V: Mixable, F: CurveFn<V>> AnimateSequence<V, F> {
    /// An empty sequence that will hold `end`.
    pub fn new(end: V) -> (r: AnimateSequence<V, F>)
        ensures
            r@.entries.len() == 0,
            r@.end == end,
            r@.wf(),
    {
        AnimateSequence { queue: Vec::new(), end }
    }

    /// Insert `anim`, playing for `time` seconds, at the front of the queue,
    /// making it the next entry to play.
    pub fn before(&mut self, time: Time, anim: Animate<V, F>)
        ensures
            final(self)@.entries == old(self)@.entries.insert(0, (anim@, time)),
            final(self)@.end == old(self)@.end,
    {
        let ghost q0 = self.queue@;
        self.queue.insert(0, (anim, time));
        proof {
            lemma_view_entries(q0);
            lemma_view_entries(self.queue@);
            assert(view_entries(self.queue@) =~= view_entries(q0).insert(0, (anim@, time)));
        }
    }

    /// Advance a sequence by `dt` seconds, producing the complete
    /// replacement sequence: entries whose remaining duration is exceeded
    /// are consumed from the front, carrying the leftover delta forward.
    pub fn do_step(self, dt: DeltaTime) -> (r: Self)
        requires
            self@.wf(),
        ensures
            r@ == self@.spec_step(dt),
        decreases self.queue@,
    {
        let ghost m0 = self@;
        let AnimateSequence { mut queue, end } = self;
        let ghost q0 = queue@;
        proof {
            lemma_view_entries(q0);
        }
        if queue.len() == 0 {
            AnimateSequence { queue, end }
        } else {
            let (a, t) = queue.remove(0);
            if dt.gt(t) {
                let rest = AnimateSequence { queue, end };
                proof {
                    assert(rest.queue@ =~= q0.drop_first());
                    lemma_view_entries(rest.queue@);
                    assert(rest@.entries =~= m0.entries.drop_first());
                }
                rest.do_step(dt.sub(t))
            } else {
                proof {
                    lemma_entries_wf_index(m0.entries, 0);
                }
                let a2 = a.do_step(dt);
                let t2 = t.sub(dt);
                queue.insert(0, (a2, t2));
                let r = AnimateSequence { queue, end };
                proof {
                    lemma_view_entries(queue@);
                    assert(r@.entries =~= m0.entries.update(
                        0,
                        (a@.spec_step(dt), fx(fx_sub(t@, dt@))),
                    ));
                }
                r
            }
        }
    }

    /// The head entry's current value, or the terminal value once the queue
    /// is empty; the [`Animation::now`] query.
    fn current(&self) -> (r: V)
        requires
            self@.wf(),
        ensures
            r == self@.spec_now(),
        decreases self.queue@,
    {
        proof {
            lemma_view_entries(self.queue@);
        }
        if self.queue.len() == 0 {
            self.end
        } else {
            proof {
                lemma_entries_wf_index(self@.entries, 0);
            }
            let head = &self.queue[0];
            head.0.current()
        }
    }

    /// Advance the sequence in place by `dt` seconds; the
    /// [`Animation::step`] mutation.
    fn advance(&mut self, dt: DeltaTime)
        requires
            old(self)@.wf(),
        ensures
            final(self)@ == old(self)@.spec_step(dt),
    {
        let mut queue: Vec<(Animate<V, F>, Time)> = Vec::new();
        core::mem::swap(&mut queue, &mut self.queue);
        let taken = AnimateSequence { queue, end: self.end };
        proof {
            assert(taken@ == old(self)@);
        }
        let stepped = taken.do_step(dt);
        let AnimateSequence { queue: q2, end: e2 } = stepped;
        self.queue = q2;
        self.end = e2;
    }
}

impl<V: Mixable, F: CurveFn<V>> Animation<V> for Animate<V, F> {
    open spec fn wf(self) -> bool {
        self@.wf()
    }

    open spec fn spec_now(self) -> V {
        self@.spec_now()
    }

    open spec fn steps_to(self, post: Self, dt: DeltaTime) -> bool {
        post@ == self@.spec_step(dt)
    }

    open spec fn spec_steady(self) -> bool {
        self@.spec_steady()
    }

    fn now(&self) -> (r: V) {
        self.current()
    }
    fn step(&mut self, dt: DeltaTime) {
        let next: Option<Animate<V, F>> = match &mut *self {
            Animate::Fixed(_) => None,
            Animate::Slide(a, b, t) => Some(Animate::Slide(*a, *b, *t).do_step(dt)),
            Animate::Linear(a, b, s, t) => Some(Animate::Linear(*a, *b, *s, *t).do_step(dt)),
            Animate::Quadratic(a, b, c, s, t) => Some(
                Animate::Quadratic(*a, *b, *c, *s, *t).do_step(dt),
            ),
            Animate::Cubic(a, b, c, d, s, t) => Some(
                Animate::Cubic(*a, *b, *c, *d, *s, *t).do_step(dt),
            ),
            Animate::BoundedLinear(a, b, s, t) => Some(
                Animate::BoundedLinear(*a, *b, *s, *t).do_step(dt),
            ),
            Animate::BoundedQuadratic(a, b, c, s, t) => Some(
                Animate::BoundedQuadratic(*a, *b, *c, *s, *t).do_step(dt),
            ),
            Animate::BoundedCubic(a, b, c, d, s, t) => Some(
                Animate::BoundedCubic(*a, *b, *c, *d, *s, *t).do_step(dt),
            ),
            Animate::Switch(a, b, t) => Some(Animate::Switch(*a, *b, *t).do_step(dt)),
            Animate::SmoothSwitch(a, b, s, t) => Some(
                Animate::SmoothSwitch(*a, *b, *s, *t).do_step(dt),
            ),
            Animate::SoftSwitch(a, b, e, s, t) => Some(
                Animate::SoftSwitch(*a, *b, *e, *s, *t).do_step(dt),
            ),
            Animate::Func(_, t) => {
                let t2 = t.add(dt);
                *t = t2;
                None
            },
            Animate::MixFunc(_, _, _, t) => {
                let t2 = t.add(dt);
                *t = t2;
                None
            },
            Animate::StepFunc(f, v) => {
                let v2 = f.eval_step(*v, dt);
                *v = v2;
                None
            },
            Animate::Sequence(q) => {
                q.advance(dt);
                None
            },
        };
        match next {
            Some(n) => {
                *self = n;
            },
            None => (),
        }
        proof {
            lemma_step_wf(old(self)@, dt);
        }
    }

    fn steady(&self) -> (r: bool) {
        match self {
            Animate::Fixed(_) => true,
            _ => false,
        }
    }
}

impl<V: Mixable, F: CurveFn<V>> Animation<V> for AnimateSequence<V, F> {
    open spec fn wf(self) -> bool {
        self@.wf()
    }

    open spec fn spec_now(self) -> V {
        self@.spec_now()
    }

    open spec fn steps_to(self, post: Self, dt: DeltaTime) -> bool {
        post@ == self@.spec_step(dt)
    }

    open spec fn spec_steady(self) -> bool {
        self@.spec_steady()
    }

    fn now(&self) -> (r: V) {
        self.current()
    }

    fn step(&mut self, dt: DeltaTime) {
        self.advance(dt);
        proof {
            lemma_seq_step_wf(old(self)@, dt);
        }
    }

    fn steady(&self) -> (r: bool) {
        proof {
            lemma_view_entries(self.queue@);
        }
        if self.queue.len() == 0 {
            true
        } else {
            let last = &self.queue[self.queue.len() - 1];
            match &last.0 {
                Animate::Fixed(_) => true,
                _ => false,
            }
        }
    }
}

/// The two built-in eased "bounce" blend-factor curves: closed-form
/// polynomials of normalized time, clipped to zero outside `[0, duration]`.
#[derive(Clone, Copy, Debug, PartialEq, Eq, Structural)]
pub enum Bounce {
    /// The quartic ease `x^4 - 2*x^2 + 1` of `x = 2*(t/duration) - 1`.
    Soft {
        /// How long the bounce lasts, in seconds.
        duration: Time,
    },
    /// The quadratic ease `1 - x^2` of `x = 2*(t/duration) - 1`.
    Hard {
        /// How long the bounce lasts, in seconds.
        duration: Time,
    },
}

/// The blend factor the soft bounce yields at time `t`.
pub open spec fn bounce_soft_at(duration: Fx, t: Fx) -> Fx {
    let n = fx_div(t@, duration@);
    if n < 0 || n > SCALE as int {
        fx(0)
    } else {
        let x = fx_sub(fx_mul(n, 2 * (SCALE as int)), SCALE as int);
        let xx = fx_mul(x, x);
        fx(fx_add(fx_sub(fx_mul(xx, xx), fx_mul(2 * (SCALE as int), xx)), SCALE as int))
    }
}

/// The blend factor the hard bounce yields at time `t`.
pub open spec fn bounce_hard_at(duration: Fx, t: Fx) -> Fx {
    let n = fx_div(t@, duration@);
    if n < 0 || n > SCALE as int {
        fx(0)
    } else {
        let x = fx_sub(fx_mul(n, 2 * (SCALE as int)), SCALE as int);
        fx(fx_sub(SCALE as int, fx_mul(x, x)))
    }
}

impl<V: Mixable> CurveFn<V> for Bounce {
    open spec fn drives_value(&self) -> bool {
        false
    }

    open spec fn drives_step(&self) -> bool {
        false
    }

    open spec fn value_at(&self, t: Time) -> V {
        vstd::pervasive::arbitrary()
    }

    open spec fn mix_at(&self, t: Time) -> Param {
        match *self {
            Bounce::Soft { duration } => bounce_soft_at(duration, t),
            Bounce::Hard { duration } => bounce_hard_at(duration, t),
        }
    }

    open spec fn step_at(&self, v: V, dt: DeltaTime) -> V {
        vstd::pervasive::arbitrary()
    }

    fn eval_value(&self, t: Time) -> (r: V) {
        vstd::pervasive::unreached()
    }

    fn eval_mix(&self, t: Time) -> (r: Param) {
        let duration = match self {
            Bounce::Soft { duration } => *duration,
            Bounce::Hard { duration } => *duration,
        };
        let n = t.div(duration);
        if n.lt(Fx::zero()) || n.gt(Fx::one()) {
            return Fx::zero();
        }
        let x = n.mul(Fx::from_int(2)).sub(Fx::one());
        match self {
            Bounce::Soft { duration: _ } => {
                let xx = x.mul(x);
                xx.mul(xx).sub(Fx::from_int(2).mul(xx)).add(Fx::one())
            },
            Bounce::Hard { duration: _ } => Fx::one().sub(x.mul(x)),
        }
    }

    fn eval_step(&self, v: V, dt: DeltaTime) -> (r: V) {
        vstd::pervasive::unreached()
    }
}

impl<V: Mixable> Animate<V, Bounce> {
    /// An eased bounce from `a` to `b` lasting `duration` seconds, rising
    /// and falling along a quartic polynomial of normalized time.
    pub fn bounce_soft(a: V, b: V, duration: Time) -> (r: Animate<V, Bounce>)
        ensures
            r@ == AnimModel::<V, Bounce>::MixFunc(Bounce::Soft { duration }, a, b, fx(0)),
            r@.wf(),
    {
        Animate::MixFunc(Bounce::Soft { duration }, a, b, Fx::zero())
    }

    /// An eased bounce from `a` to `b` lasting `duration` seconds, rising
    /// and falling along a quadratic polynomial of normalized time.
    pub fn bounce_hard(a: V, b: V, duration: Time) -> (r: Animate<V, Bounce>)
        ensures
            r@ == AnimModel::<V, Bounce>::MixFunc(Bounce::Hard { duration }, a, b, fx(0)),
            r@.wf(),
    {
        Animate::MixFunc(Bounce::Hard { duration }, a, b, Fx::zero())
    }
}

} // verus!
