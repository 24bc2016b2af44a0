//! Which axis dominates.
//!
//! The face of a cube that a point lies on, and the face of the sky that a
//! direction points at, are both found by comparing three magnitudes, one
//! per axis. The magnitudes are single-precision bit patterns, compared as
//! numbers. The two rules differ in how they treat ties.

use crate::single::{abs, ge, greater, greater_eq, gt, is_nan, magnitude, place, ZERO};
use vstd::prelude::*;

verus! {

#[derive(Debug, Clone, Copy, PartialEq, Eq, Structural)]
pub enum Axis {
    X,
    Y,
    Z,
}

/// A face of a cube, or of the sky: the axis it lies across, and whether
/// it is on the positive side.
#[derive(Debug, Clone, Copy, PartialEq, Eq, Structural)]
pub struct Face {
    pub axis: Axis,
    pub positive: bool,
}

/// How a face of a cube is laid onto a texture: the axis that runs along
/// `u`, the axis that runs along `v`, and whether `v` is flipped to `1 - v`
/// so that up on the cube is up in the image.
#[derive(Debug, Clone, Copy, PartialEq, Eq, Structural)]
pub struct UvLayout {
    pub u: Axis,
    pub v: Axis,
    pub flip_v: bool,
}

/// The axis of the surface normal. The axes are taken in the order x, y,
/// z, and an axis leads if its magnitude is strictly above zero and above
/// every magnitude before it; the last axis to lead is the one. Among
/// numbers that is the first axis with the largest magnitude.
pub open spec fn leading_axis(x: u32, y: u32, z: u32) -> Option<Axis> {
    let after_x = if gt(x, ZERO) {
        (Some(Axis::X), x)
    } else {
        (None, ZERO)
    };
    let after_y = if gt(y, after_x.1) {
        (Some(Axis::Y), y)
    } else {
        after_x
    };
    if gt(z, after_y.1) {
        Some(Axis::Z)
    } else {
        after_y.0
    }
}

/// The face used for texture coordinates: the one the normal points out
/// of, and the z face where there is no normal.
pub open spec fn texture_face(x: u32, y: u32, z: u32) -> Axis {
    match leading_axis(x, y, z) {
        Some(axis) => axis,
        None => Axis::Z,
    }
}

/// The face of the sky that a direction points at: x where its magnitude
/// is at least as large as both others, else y where it is, else z; on the
/// positive side where the direction is above zero along that axis.
pub open spec fn sky_face(x: u32, y: u32, z: u32) -> Face {
    let (ax, ay, az) = (magnitude(x), magnitude(y), magnitude(z));
    if ge(ax, ay) && ge(ax, az) {
        Face { axis: Axis::X, positive: gt(x, ZERO) }
    } else if ge(ay, ax) && ge(ay, az) {
        Face { axis: Axis::Y, positive: gt(y, ZERO) }
    } else {
        Face { axis: Axis::Z, positive: gt(z, ZERO) }
    }
}

pub open spec fn face_layout(face: Axis) -> UvLayout {
    match face {
        Axis::X => UvLayout { u: Axis::Z, v: Axis::Y, flip_v: true },
        Axis::Y => UvLayout { u: Axis::X, v: Axis::Z, flip_v: false },
        Axis::Z => UvLayout { u: Axis::X, v: Axis::Y, flip_v: true },
    }
}

/// The normal of a cube at a point: across the leading axis, on the side
/// on which the point lies. `magnitudes` are the absolute offsets of the
/// point from the centre, each divided by half the extent; `offsets` are
/// the offsets themselves.
pub open spec fn normal_face(magnitudes: (u32, u32, u32), offsets: (u32, u32, u32)) -> Option<
    Face,
> {
    match leading_axis(magnitudes.0, magnitudes.1, magnitudes.2) {
        None => None,
        Some(Axis::X) => Some(Face { axis: Axis::X, positive: gt(offsets.0, ZERO) }),
        Some(Axis::Y) => Some(Face { axis: Axis::Y, positive: gt(offsets.1, ZERO) }),
        Some(Axis::Z) => Some(Face { axis: Axis::Z, positive: gt(offsets.2, ZERO) }),
    }
}

/// Picks the axis of the normal by a running maximum that starts at zero
/// and moves on strictly larger magnitudes only.
pub fn normal_axis(x: u32, y: u32, z: u32) -> (axis: Option<Axis>)
    ensures
        axis == leading_axis(x, y, z),
{
    let mut axis: Option<Axis> = None;
    let mut highest: u32 = ZERO;
    if greater(x, highest) {
        highest = x;
        axis = Some(Axis::X);
    }
    if greater(y, highest) {
        highest = y;
        axis = Some(Axis::Y);
    }
    if greater(z, highest) {
        axis = Some(Axis::Z);
    }
    axis
}

/// Finds the normal of a cube at a point.
pub fn surface_normal(magnitudes: (u32, u32, u32), offsets: (u32, u32, u32)) -> (face: Option<
    Face,
>)
    ensures
        face == normal_face(magnitudes, offsets),
{
    match normal_axis(magnitudes.0, magnitudes.1, magnitudes.2) {
        None => None,
        Some(Axis::X) => Some(Face { axis: Axis::X, positive: greater(offsets.0, ZERO) }),
        Some(Axis::Y) => Some(Face { axis: Axis::Y, positive: greater(offsets.1, ZERO) }),
        Some(Axis::Z) => Some(Face { axis: Axis::Z, positive: greater(offsets.2, ZERO) }),
    }
}

/// Picks the face of a cube for texture coordinates.
pub fn uv_face(x: u32, y: u32, z: u32) -> (face: Axis)
    ensures
        face == texture_face(x, y, z),
{
    match normal_axis(x, y, z) {
        Some(axis) => axis,
        None => Axis::Z,
    }
}

/// Picks the face of the sky for a direction.
pub fn sky_direction(x: u32, y: u32, z: u32) -> (face: Face)
    ensures
        face == sky_face(x, y, z),
{
    let ax = abs(x);
    let ay = abs(y);
    let az = abs(z);
    if greater_eq(ax, ay) && greater_eq(ax, az) {
        Face { axis: Axis::X, positive: greater(x, ZERO) }
    } else if greater_eq(ay, ax) && greater_eq(ay, az) {
        Face { axis: Axis::Y, positive: greater(y, ZERO) }
    } else {
        Face { axis: Axis::Z, positive: greater(z, ZERO) }
    }
}

/// The texture layout of a face.
pub fn uv_layout(face: Axis) -> (layout: UvLayout)
    ensures
        layout == face_layout(face),
{
    match face {
        Axis::X => UvLayout { u: Axis::Z, v: Axis::Y, flip_v: true },
        Axis::Y => UvLayout { u: Axis::X, v: Axis::Z, flip_v: false },
        Axis::Z => UvLayout { u: Axis::X, v: Axis::Y, flip_v: true },
    }
}

/// Among magnitudes that are numbers, the leading axis is the first one
/// with the largest magnitude, and there is none only if all are zero.
pub proof fn lemma_leading_axis_is_largest(x: u32, y: u32, z: u32)
    requires
        !is_nan(x) && place(x) >= 0,
        !is_nan(y) && place(y) >= 0,
        !is_nan(z) && place(z) >= 0,
    ensures
        match leading_axis(x, y, z) {
            None => place(x) == 0 && place(y) == 0 && place(z) == 0,
            Some(Axis::X) => gt(x, ZERO) && ge(x, y) && ge(x, z),
            Some(Axis::Y) => gt(y, x) && ge(y, z),
            Some(Axis::Z) => gt(z, x) && gt(z, y),
        },
{
}

/// The two axes that feed `u` and `v` are the two that the face does not
/// lie along.
pub proof fn lemma_layout_spans_the_face(face: Axis)
    ensures
        face_layout(face).u != face,
        face_layout(face).v != face,
        face_layout(face).u != face_layout(face).v,
{
}

} // verus!
