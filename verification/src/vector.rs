//! Blend adapters for three-component vectors, points and translations.
//!
//! A vector accumulates as a component-wise weighted sum. A point blends via
//! coordinate extraction and reconstruction, and a translation via its
//! displacement vector; both reuse the vector accumulator.

use vstd::prelude::*;
use crate::fixed::{fx, fx_add, fx_mul, Fx};
use crate::mix::{Mixable, Mixer};

verus! {

/// A three-component vector of fixed-point scalars.
#[derive(Clone, Copy, Debug, PartialEq, Eq, Structural)]
pub struct Vector3 {
    /// The first component.
    pub x: Fx,
    /// The second component.
    pub y: Fx,
    /// The third component.
    pub z: Fx,
}

impl Vector3 {
    /// Build a vector from its components.
    pub fn new(x: Fx, y: Fx, z: Fx) -> (r: Vector3)
        ensures
            r == (Vector3 { x, y, z }),
    {
        Vector3 { x, y, z }
    }

    /// The zero vector.
    pub fn zero() -> (r: Vector3)
        ensures
            r == (Vector3 { x: fx(0), y: fx(0), z: fx(0) }),
    {
        Vector3 { x: Fx::zero(), y: Fx::zero(), z: Fx::zero() }
    }
}

/// The vector accumulator after folding in one weighted vector: a
/// component-wise weighted sum.
pub open spec fn vec3_fold(acc: Vector3, v: Vector3, w: Fx) -> Vector3 {
    Vector3 {
        x: fx(fx_add(acc.x@, fx_mul(v.x@, w@))),
        y: fx(fx_add(acc.y@, fx_mul(v.y@, w@))),
        z: fx(fx_add(acc.z@, fx_mul(v.z@, w@))),
    }
}

/// The vector accumulator: a component-wise running weighted sum.
impl Mixer<Vector3> for Vector3 {
    open spec fn spec_new() -> Vector3 {
        Vector3 { x: fx(0), y: fx(0), z: fx(0) }
    }

    open spec fn spec_add(self, v: Vector3, weight: Fx) -> Vector3 {
        vec3_fold(self, v, weight)
    }

    open spec fn spec_close(self) -> Vector3 {
        self
    }

    fn new() -> (r: Vector3) {
        Vector3::zero()
    }

    fn add(&mut self, v: &Vector3, weight: Fx) {
        self.x = self.x.add(v.x.mul(weight));
        self.y = self.y.add(v.y.mul(weight));
        self.z = self.z.add(v.z.mul(weight));
    }

    fn close(self) -> (r: Vector3) {
        self
    }
}

/// Vectors blend as component-wise weighted sums.
impl Mixable for Vector3 {
    type Mixer = Vector3;
}

/// A point in three-dimensional space.
#[derive(Clone, Copy, Debug, PartialEq, Eq, Structural)]
pub struct Point3 {
    /// The coordinates of the point.
    pub coords: Vector3,
}

impl Point3 {
    /// Build a point from its coordinates, component by component.
    pub fn new(x: Fx, y: Fx, z: Fx) -> (r: Point3)
        ensures
            r == (Point3 { coords: Vector3 { x, y, z } }),
    {
        Point3 { coords: Vector3 { x, y, z } }
    }

    /// Build a point from its coordinate vector.
    pub fn from_coordinates(coords: Vector3) -> (r: Point3)
        ensures
            r == (Point3 { coords }),
    {
        Point3 { coords }
    }
}

/// Points blend via coordinate extraction, then reconstruction on close.
impl Mixer<Point3> for Vector3 {
    open spec fn spec_new() -> Vector3 {
        Vector3 { x: fx(0), y: fx(0), z: fx(0) }
    }

    open spec fn spec_add(self, v: Point3, weight: Fx) -> Vector3 {
        vec3_fold(self, v.coords, weight)
    }

    open spec fn spec_close(self) -> Point3 {
        Point3 { coords: self }
    }

    fn new() -> (r: Vector3) {
        Vector3::zero()
    }

    fn add(&mut self, v: &Point3, weight: Fx) {
        <Vector3 as Mixer<Vector3>>::add(self, &v.coords, weight);
    }

    fn close(self) -> (r: Point3) {
        Point3 { coords: self }
    }
}

impl Mixable for Point3 {
    type Mixer = Vector3;
}

/// A translation of three-dimensional space.
#[derive(Clone, Copy, Debug, PartialEq, Eq, Structural)]
pub struct Translation3 {
    /// The displacement vector.
    pub vector: Vector3,
}

impl Translation3 {
    /// Build the translation with the given displacement components.
    pub fn new(x: Fx, y: Fx, z: Fx) -> (r: Translation3)
        ensures
            r == (Translation3 { vector: Vector3 { x, y, z } }),
    {
        Translation3 { vector: Vector3 { x, y, z } }
    }

    /// Wrap a displacement vector as a translation.
    pub fn from_vector(vector: Vector3) -> (r: Translation3)
        ensures
            r == (Translation3 { vector }),
    {
        Translation3 { vector }
    }
}

/// Translations blend via their displacement vectors.
impl Mixer<Translation3> for Vector3 {
    open spec fn spec_new() -> Vector3 {
        Vector3 { x: fx(0), y: fx(0), z: fx(0) }
    }

    open spec fn spec_add(self, v: Translation3, weight: Fx) -> Vector3 {
        vec3_fold(self, v.vector, weight)
    }

    open spec fn spec_close(self) -> Translation3 {
        Translation3 { vector: self }
    }

    fn new() -> (r: Vector3) {
        Vector3::zero()
    }

    fn add(&mut self, v: &Translation3, weight: Fx) {
        <Vector3 as Mixer<Vector3>>::add(self, &v.vector, weight);
    }

    fn close(self) -> (r: Translation3) {
        Translation3 { vector: self }
    }
}

impl Mixable for Translation3 {
    type Mixer = Vector3;
}

} // verus!
