//! A time-driven interpolation engine.
//!
//! The crate provides a family of curve animation states ([`animation::Animate`],
//! [`animation::AnimateSequence`]) that advance with elapsed time and emit a
//! current value, together with a blending capability ([`mix::Mixable`],
//! [`mix::Mixer`]) that lets value types of many shapes (scalars, vectors,
//! points, unit rotations, rigid and similarity transforms) take part in
//! weighted blending.
//!
//! All quantities are exact fixed-point numbers ([`fixed::Fx`]), so every
//! transition of the state machine has a precise mathematical description.

pub mod animation;
pub mod fixed;
pub mod interact;
pub mod laws;
pub mod mix;
pub mod rotation;
pub mod transform;
pub mod vector;
