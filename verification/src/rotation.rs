//! Blend adapters for quaternions and unit rotations.
//!
//! A plain quaternion accumulates component-wise, like a four-channel
//! vector. A unit rotation blends as a weighted quaternion sum that is
//! renormalized on close; when the accumulated magnitude degenerates to
//! zero, the close falls back to an unchecked wrap of the raw sum rather
//! than failing. That fallback is a documented approximation, not an error.

use vstd::prelude::*;
use crate::fixed::{fx, fx_add, fx_div, fx_mul, spec_isqrt, Fx, SCALE};
use crate::mix::{Mixable, Mixer};

verus! {

/// A quaternion of fixed-point scalars.
#[derive(Clone, Copy, Debug, PartialEq, Eq, Structural)]
pub struct Quaternion {
    /// The scalar part.
    pub w: Fx,
    /// The first imaginary component.
    pub x: Fx,
    /// The second imaginary component.
    pub y: Fx,
    /// The third imaginary component.
    pub z: Fx,
}

impl Quaternion {
    /// Build a quaternion from its components.
    pub fn new(w: Fx, x: Fx, y: Fx, z: Fx) -> (r: Quaternion)
        ensures
            r == (Quaternion { w, x, y, z }),
    {
        Quaternion { w, x, y, z }
    }

    /// The zero quaternion.
    pub fn zero() -> (r: Quaternion)
        ensures
            r == (Quaternion { w: fx(0), x: fx(0), y: fx(0), z: fx(0) }),
    {
        Quaternion { w: Fx::zero(), x: Fx::zero(), y: Fx::zero(), z: Fx::zero() }
    }

    /// The identity quaternion.
    pub fn identity() -> (r: Quaternion)
        ensures
            r == (Quaternion { w: fx(SCALE as int), x: fx(0), y: fx(0), z: fx(0) }),
    {
        Quaternion { w: Fx::one(), x: Fx::zero(), y: Fx::zero(), z: Fx::zero() }
    }
}

/// The quaternion accumulator after folding in one weighted quaternion: a
/// component-wise weighted sum.
pub open spec fn quat_fold(acc: Quaternion, v: Quaternion, w: Fx) -> Quaternion {
    Quaternion {
        w: fx(fx_add(acc.w@, fx_mul(v.w@, w@))),
        x: fx(fx_add(acc.x@, fx_mul(v.x@, w@))),
        y: fx(fx_add(acc.y@, fx_mul(v.y@, w@))),
        z: fx(fx_add(acc.z@, fx_mul(v.z@, w@))),
    }
}

/// The raw count of the squared magnitude of a quaternion.
pub open spec fn quat_norm_sq(q: Quaternion) -> int {
    fx_add(
        fx_add(fx_add(fx_mul(q.w@, q.w@), fx_mul(q.x@, q.x@)), fx_mul(q.y@, q.y@)),
        fx_mul(q.z@, q.z@),
    )
}

/// The raw count of the magnitude of a quaternion: the fixed-point square
/// root of the squared magnitude.
pub open spec fn quat_norm(q: Quaternion) -> int {
    spec_isqrt(quat_norm_sq(q) * (SCALE as int))
}

/// A squared scalar never accumulates to a negative squared magnitude.
pub proof fn lemma_norm_sq_nonneg(q: Quaternion)
    ensures
        0 <= quat_norm_sq(q),
{
    assert(q.w@ * q.w@ >= 0) by (nonlinear_arith);
    assert(q.x@ * q.x@ >= 0) by (nonlinear_arith);
    assert(q.y@ * q.y@ >= 0) by (nonlinear_arith);
    assert(q.z@ * q.z@ >= 0) by (nonlinear_arith);
}

/// The quaternion accumulator: a component-wise running weighted sum.
impl Mixer<Quaternion> for Quaternion {
    open spec fn spec_new() -> Quaternion {
        Quaternion { w: fx(0), x: fx(0), y: fx(0), z: fx(0) }
    }

    open spec fn spec_add(self, v: Quaternion, weight: Fx) -> Quaternion {
        quat_fold(self, v, weight)
    }

    open spec fn spec_close(self) -> Quaternion {
        self
    }

    fn new() -> (r: Quaternion) {
        Quaternion::zero()
    }

    fn add(&mut self, v: &Quaternion, weight: Fx) {
        self.w = self.w.add(v.w.mul(weight));
        self.x = self.x.add(v.x.mul(weight));
        self.y = self.y.add(v.y.mul(weight));
        self.z = self.z.add(v.z.mul(weight));
    }

    fn close(self) -> (r: Quaternion) {
        self
    }
}

/// Quaternions blend as component-wise weighted sums.
impl Mixable for Quaternion {
    type Mixer = Quaternion;
}

/// A rotation held as a quaternion that is a unit up to the fixed-point
/// grid. A degenerate blend may store a non-unit quaternion unchecked; the
/// type states no unit invariant, exactly like an unchecked unit wrap.
#[derive(Clone, Copy, Debug, PartialEq, Eq, Structural)]
pub struct UnitQuaternion {
    /// The underlying quaternion.
    pub q: Quaternion,
}

impl UnitQuaternion {
    /// Wrap a quaternion without normalizing it.
    pub fn new_unchecked(q: Quaternion) -> (r: UnitQuaternion)
        ensures
            r == (UnitQuaternion { q }),
    {
        UnitQuaternion { q }
    }

    /// The identity rotation.
    pub fn identity() -> (r: UnitQuaternion)
        ensures
            r == (UnitQuaternion {
                q: Quaternion { w: fx(SCALE as int), x: fx(0), y: fx(0), z: fx(0) },
            }),
    {
        UnitQuaternion { q: Quaternion::identity() }
    }
}

/// The rotation a consumed quaternion accumulator closes to: the sum
/// renormalized by its magnitude, or wrapped unchecked when the magnitude
/// degenerates to zero.
pub open spec fn spec_unit_close(q: Quaternion) -> UnitQuaternion {
    let n = quat_norm(q);
    if n == 0 {
        UnitQuaternion { q }
    } else {
        UnitQuaternion {
            q: Quaternion {
                w: fx(fx_div(q.w@, n)),
                x: fx(fx_div(q.x@, n)),
                y: fx(fx_div(q.y@, n)),
                z: fx(fx_div(q.z@, n)),
            },
        }
    }
}

/// Unit rotations blend as weighted quaternion sums, renormalized on close.
impl Mixer<UnitQuaternion> for Quaternion {
    open spec fn spec_new() -> Quaternion {
        Quaternion { w: fx(0), x: fx(0), y: fx(0), z: fx(0) }
    }

    open spec fn spec_add(self, v: UnitQuaternion, weight: Fx) -> Quaternion {
        quat_fold(self, v.q, weight)
    }

    open spec fn spec_close(self) -> UnitQuaternion {
        spec_unit_close(self)
    }

    fn new() -> (r: Quaternion) {
        Quaternion::zero()
    }

    fn add(&mut self, v: &UnitQuaternion, weight: Fx) {
        <Quaternion as Mixer<Quaternion>>::add(self, &v.q, weight);
    }

    fn close(self) -> (r: UnitQuaternion) {
        proof {
            lemma_norm_sq_nonneg(self);
        }
        let n2 = self.w.mul(self.w).add(self.x.mul(self.x)).add(self.y.mul(self.y)).add(
            self.z.mul(self.z),
        );
        let n = n2.sqrt();
        if n.raw == 0 {
            UnitQuaternion { q: self }
        } else {
            UnitQuaternion {
                q: Quaternion {
                    w: self.w.div(n),
                    x: self.x.div(n),
                    y: self.y.div(n),
                    z: self.z.div(n),
                },
            }
        }
    }
}

impl Mixable for UnitQuaternion {
    type Mixer = Quaternion;
}

} // verus!
