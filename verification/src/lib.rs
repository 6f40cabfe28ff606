//! The discrete core of a 3D orientation gizmo: the vertex layout and triangle
//! lists of a three-arrow trident, and the tables that tie each of the 26 parts
//! of a view cube to a patch of geometry and to a camera orientation.
//!
//! Every real-valued quantity (a radius, a length, a sine) belongs to the
//! renderer. This crate holds what decides the shape of the buffers: counts,
//! indices, and angles kept exactly, as whole steps of a quarter of pi.

use vstd::prelude::*;

pub mod prelude;
pub mod trident;
pub mod viewcube;

verus! {

/// A quarter of pi: the step in which every angle of this crate is counted.
pub const PI_4: i8 = 1;

/// Half of pi, in steps of a quarter of pi.
pub const PI_2: i8 = 2;

/// Three quarters of pi, in steps of a quarter of pi.
pub const PI_4_3: i8 = 3;

/// Pi, in steps of a quarter of pi.
pub const PI: i8 = 4;

} // verus!
