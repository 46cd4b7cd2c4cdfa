//! Blend adapters for rigid and similarity transforms.
//!
//! Composite adapters compose: a rigid transform's accumulator is the pair
//! of its parts' accumulators (rotation and translation, blended
//! independently and recombined on close), and a similarity transform adds a
//! scalar scale channel to the rigid pair.

use vstd::prelude::*;
use crate::fixed::{fx, fx_add, fx_mul, Fx, SCALE};
use crate::mix::{Mixable, Mixer};
use crate::rotation::{quat_fold, spec_unit_close, Quaternion, UnitQuaternion};
use crate::vector::{vec3_fold, Translation3, Vector3};

verus! {

/// A rigid transform: a rotation followed by a translation.
#[derive(Clone, Copy, Debug, PartialEq, Eq, Structural)]
pub struct Isometry3 {
    /// The rotation part.
    pub rotation: UnitQuaternion,
    /// The translation part.
    pub translation: Translation3,
}

impl Isometry3 {
    /// Build a rigid transform from its parts.
    pub fn from_parts(translation: Translation3, rotation: UnitQuaternion) -> (r: Isometry3)
        ensures
            r == (Isometry3 { rotation, translation }),
    {
        Isometry3 { rotation, translation }
    }

    /// The identity transform.
    pub fn identity() -> (r: Isometry3)
        ensures
            r == (Isometry3 {
                rotation: UnitQuaternion {
                    q: Quaternion { w: fx(SCALE as int), x: fx(0), y: fx(0), z: fx(0) },
                },
                translation: Translation3 { vector: Vector3 { x: fx(0), y: fx(0), z: fx(0) } },
            }),
    {
        Isometry3 {
            rotation: UnitQuaternion::identity(),
            translation: Translation3::from_vector(Vector3::zero()),
        }
    }
}

/// The rigid-transform accumulator: the pair of the rotation and translation
/// accumulators.
#[derive(Clone, Copy, Debug, PartialEq, Eq, Structural)]
pub struct Isometry3Mixer(pub Quaternion, pub Vector3);

/// Rigid transforms blend their rotation and translation independently, and
/// recombine on close.
impl Mixer<Isometry3> for Isometry3Mixer {
    open spec fn spec_new() -> Isometry3Mixer {
        Isometry3Mixer(
            Quaternion { w: fx(0), x: fx(0), y: fx(0), z: fx(0) },
            Vector3 { x: fx(0), y: fx(0), z: fx(0) },
        )
    }

    open spec fn spec_add(self, v: Isometry3, weight: Fx) -> Isometry3Mixer {
        Isometry3Mixer(
            quat_fold(self.0, v.rotation.q, weight),
            vec3_fold(self.1, v.translation.vector, weight),
        )
    }

    open spec fn spec_close(self) -> Isometry3 {
        Isometry3 {
            rotation: spec_unit_close(self.0),
            translation: Translation3 { vector: self.1 },
        }
    }

    fn new() -> (r: Isometry3Mixer) {
        Isometry3Mixer(
            <Quaternion as Mixer<UnitQuaternion>>::new(),
            <Vector3 as Mixer<Translation3>>::new(),
        )
    }

    fn add(&mut self, v: &Isometry3, weight: Fx) {
        <Quaternion as Mixer<UnitQuaternion>>::add(&mut self.0, &v.rotation, weight);
        <Vector3 as Mixer<Translation3>>::add(&mut self.1, &v.translation, weight);
    }

    fn close(self) -> (r: Isometry3) {
        Isometry3::from_parts(
            <Vector3 as Mixer<Translation3>>::close(self.1),
            <Quaternion as Mixer<UnitQuaternion>>::close(self.0),
        )
    }
}

impl Mixable for Isometry3 {
    type Mixer = Isometry3Mixer;
}

/// A similarity transform: a rigid transform with a uniform scale.
#[derive(Clone, Copy, Debug, PartialEq, Eq, Structural)]
pub struct Similarity3 {
    /// The rigid part.
    pub isometry: Isometry3,
    /// The uniform scale factor.
    pub scaling: Fx,
}

impl Similarity3 {
    /// Build a similarity transform from its rigid part and scale.
    pub fn from_isometry(isometry: Isometry3, scaling: Fx) -> (r: Similarity3)
        ensures
            r == (Similarity3 { isometry, scaling }),
    {
        Similarity3 { isometry, scaling }
    }

    /// The uniform scale factor.
    pub fn scaling(&self) -> (r: Fx)
        ensures
            r == self.scaling,
    {
        self.scaling
    }
}

/// The similarity accumulator: the rigid pair plus a scalar scale channel.
#[derive(Clone, Copy, Debug, PartialEq, Eq, Structural)]
pub struct Similarity3Mixer(pub Isometry3Mixer, pub Fx);

/// Similarity transforms blend their rigid part and scale channel
/// independently, and recombine on close.
impl Mixer<Similarity3> for Similarity3Mixer {
    open spec fn spec_new() -> Similarity3Mixer {
        Similarity3Mixer(
            Isometry3Mixer(
                Quaternion { w: fx(0), x: fx(0), y: fx(0), z: fx(0) },
                Vector3 { x: fx(0), y: fx(0), z: fx(0) },
            ),
            fx(0),
        )
    }

    open spec fn spec_add(self, v: Similarity3, weight: Fx) -> Similarity3Mixer {
        Similarity3Mixer(
            Isometry3Mixer(
                quat_fold(self.0.0, v.isometry.rotation.q, weight),
                vec3_fold(self.0.1, v.isometry.translation.vector, weight),
            ),
            fx(fx_add(self.1@, fx_mul(v.scaling@, weight@))),
        )
    }

    open spec fn spec_close(self) -> Similarity3 {
        Similarity3 {
            isometry: Isometry3 {
                rotation: spec_unit_close(self.0.0),
                translation: Translation3 { vector: self.0.1 },
            },
            scaling: self.1,
        }
    }

    fn new() -> (r: Similarity3Mixer) {
        Similarity3Mixer(<Isometry3Mixer as Mixer<Isometry3>>::new(), <Fx as Mixer<Fx>>::new())
    }

    fn add(&mut self, v: &Similarity3, weight: Fx) {
        <Isometry3Mixer as Mixer<Isometry3>>::add(&mut self.0, &v.isometry, weight);
        let scale = v.scaling();
        <Fx as Mixer<Fx>>::add(&mut self.1, &scale, weight);
    }

    fn close(self) -> (r: Similarity3) {
        Similarity3::from_isometry(
            <Isometry3Mixer as Mixer<Isometry3>>::close(self.0),
            <Fx as Mixer<Fx>>::close(self.1),
        )
    }
}

impl Mixable for Similarity3 {
    type Mixer = Similarity3Mixer;
}

} // verus!
