//! The blend capability.
//!
//! A value type opts into animation by supplying a [`Mixer`]: a transient
//! accumulator, created fresh per blend operation, that folds weighted
//! contributions and is consumed once to produce the blended value. From the
//! three accumulator primitives, [`Mixable`] derives linear, quadratic-Bezier
//! and cubic-Bezier blends, and an arbitrary weighted mix.
//!
//! Callers are responsible for weights that sum to one; a non-normalized
//! weight set yields a well-defined but not necessarily meaningful result.

use vstd::prelude::*;
use crate::fixed::{fx, fx_mul, fx_sub, Fx, SCALE};

verus! {

/// Folds several weighted values into one.
///
/// The three spec functions give the exact meaning of the three operations;
/// every executable method is pinned to its spec counterpart.
pub trait Mixer<V>: Sized {
    /// The fresh accumulator.
    spec fn spec_new() -> Self;

    /// The accumulator after one `(value, weight)` contribution is folded in.
    spec fn spec_add(self, v: V, weight: Fx) -> Self;

    /// The value a consumed accumulator yields.
    spec fn spec_close(self) -> V;

    /// Instantiate a new mixer.
    fn new() -> (r: Self)
        ensures
            r == Self::spec_new(),
    ;

    /// Mix a new value into the total.
    fn add(&mut self, v: &V, weight: Fx)
        ensures
            *final(self) == old(self).spec_add(*v, weight),
    ;

    /// Finish mixing the values together. If no values have been added the
    /// result is not well defined, but it is still the closure of the fresh
    /// accumulator.
    fn close(self) -> (r: V)
        ensures
            r == self.spec_close(),
    ;
}

/// The linear blend of two values with factor `t`: weights `1 - t` and `t`.
pub open spec fn spec_linear<V, M: Mixer<V>>(a: V, b: V, t: Fx) -> V {
    M::spec_new().spec_add(a, fx(fx_sub(SCALE as int, t@))).spec_add(
        b,
        t,
    ).spec_close()
}

/// The quadratic Bezier blend of three values with factor `t`:
/// weights `s*s`, `2*s*t` and `t*t`, where `s = 1 - t`.
pub open spec fn spec_quadratic<V, M: Mixer<V>>(a: V, b: V, c: V, t: Fx) -> V {
    let s = fx_sub(SCALE as int, t@);
    M::spec_new().spec_add(a, fx(fx_mul(s, s))).spec_add(
        b,
        fx(fx_mul(fx_mul(2 * (SCALE as int), s), t@)),
    ).spec_add(c, fx(fx_mul(t@, t@))).spec_close()
}

/// The cubic Bezier blend of four values with factor `t`:
/// weights `s*s*s`, `3*s*s*t`, `3*s*t*t` and `t*t*t`, where `s = 1 - t`.
pub open spec fn spec_cubic<V, M: Mixer<V>>(a: V, b: V, c: V, d: V, t: Fx) -> V {
    let s = fx_sub(SCALE as int, t@);
    M::spec_new().spec_add(a, fx(fx_mul(fx_mul(s, s), s))).spec_add(
        b,
        fx(fx_mul(fx_mul(fx_mul(3 * (SCALE as int), s), s), t@)),
    ).spec_add(c, fx(fx_mul(fx_mul(fx_mul(3 * (SCALE as int), s), t@), t@))).spec_add(
        d,
        fx(fx_mul(fx_mul(t@, t@), t@)),
    ).spec_close()
}

/// The accumulator after every contribution of `items` is folded into `acc`
/// in order.
pub open spec fn spec_mix_fold<V, M: Mixer<V>>(acc: M, items: Seq<(V, Fx)>) -> M
    decreases items.len(),
{
    if items.len() == 0 {
        acc
    } else {
        spec_mix_fold::<V, M>(acc.spec_add(items[0].0, items[0].1), items.drop_first())
    }
}

/// The weighted mix of a sequence of `(value, weight)` contributions.
pub open spec fn spec_mix<V, M: Mixer<V>>(items: Seq<(V, Fx)>) -> V {
    spec_mix_fold::<V, M>(M::spec_new(), items).spec_close()
}

/// A type that can be animated: it supplies an accumulator type, and in
/// return receives the derived blend operations.
pub trait Mixable: Sized + Copy {
    /// Most animations are performed by mixing together provided values, so a
    /// mixer is needed.
    type Mixer: Mixer<Self>;

    /// Mix together 2 values with linear interpolation.
    fn linear(a: &Self, b: &Self, t: Fx) -> (r: Self)
        ensures
            r == spec_linear::<Self, Self::Mixer>(*a, *b, t),
    {
        let mut acc = Self::Mixer::new();
        acc.add(a, Fx::one().sub(t));
        acc.add(b, t);
        acc.close()
    }

    /// Mix together 3 values with a quadratic bezier function.
    fn quadratic(a: &Self, b: &Self, c: &Self, t: Fx) -> (r: Self)
        ensures
            r == spec_quadratic::<Self, Self::Mixer>(*a, *b, *c, t),
    {
        let s = Fx::one().sub(t);
        let mut acc = Self::Mixer::new();
        acc.add(a, s.mul(s));
        acc.add(b, Fx::from_int(2).mul(s).mul(t));
        acc.add(c, t.mul(t));
        acc.close()
    }

    /// Mix together 4 values with a cubic bezier function.
    fn cubic(a: &Self, b: &Self, c: &Self, d: &Self, t: Fx) -> (r: Self)
        ensures
            r == spec_cubic::<Self, Self::Mixer>(*a, *b, *c, *d, t),
    {
        let s = Fx::one().sub(t);
        let mut acc = Self::Mixer::new();
        acc.add(a, s.mul(s).mul(s));
        acc.add(b, Fx::from_int(3).mul(s).mul(s).mul(t));
        acc.add(c, Fx::from_int(3).mul(s).mul(t).mul(t));
        acc.add(d, t.mul(t).mul(t));
        acc.close()
    }

    /// Mix together a list of values and their weights. If there are no
    /// values, or the weights do not sum to one, then the result is not
    /// necessarily meaningful.
    fn mix(items: &Vec<(Self, Fx)>) -> (r: Self)
        ensures
            r == spec_mix::<Self, Self::Mixer>(items@),
    {
        let mut acc = Self::Mixer::new();
        let mut i: usize = 0;
        proof {
            assert(items@.subrange(0, items@.len() as int) =~= items@);
        }
        while i < items.len()
            invariant
                0 <= i <= items@.len(),
                spec_mix_fold::<Self, Self::Mixer>(
                    acc,
                    items@.subrange(i as int, items@.len() as int),
                ) == spec_mix_fold::<Self, Self::Mixer>(
                    <Self::Mixer as Mixer<Self>>::spec_new(),
                    items@,
                ),
            decreases items@.len() - i,
        {
            let (v, w) = items[i];
            acc.add(&v, w);
            proof {
                assert(items@.subrange(i as int, items@.len() as int).drop_first()
                    =~= items@.subrange(i + 1, items@.len() as int));
            }
            i = i + 1;
        }
        proof {
            assert(items@.subrange(items@.len() as int, items@.len() as int).len() == 0);
        }
        acc.close()
    }
}

/// The scalar accumulator: a running weighted sum.
impl Mixer<Fx> for Fx {
    open spec fn spec_new() -> Fx {
        fx(0)
    }

    open spec fn spec_add(self, v: Fx, weight: Fx) -> Fx {
        fx(crate::fixed::fx_add(self@, fx_mul(v@, weight@)))
    }

    open spec fn spec_close(self) -> Fx {
        self
    }

    fn new() -> (r: Fx) {
        Fx::zero()
    }

    fn add(&mut self, v: &Fx, weight: Fx) {
        let folded = (*self).add(v.mul(weight));
        *self = folded;
    }

    fn close(self) -> (r: Fx) {
        self
    }
}

/// Scalars blend as running weighted sums.
impl Mixable for Fx {
    type Mixer = Fx;
}

} // verus!
