//! Planar geometry: vectors, rotations, transforms and bounding boxes.

use vstd::prelude::*;
use crate::fxp::{FX_SCALE, MAX_AUTHORED, sabs};

verus! {

/// A planar vector in fixed-point ticks.
#[derive(Clone, Copy, PartialEq, Eq, Debug)]
pub struct Vec2 {
    pub x: i64,
    pub y: i64,
}

/// A planar rotation, stored as fixed-point cosine and sine.
#[derive(Clone, Copy, PartialEq, Eq, Debug)]
pub struct Rot2 {
    pub c: i64,
    pub s: i64,
}

/// The generic spatial transform a body may carry besides its physical pose.
#[derive(Clone, Copy, PartialEq, Eq, Debug)]
pub struct Transform2 {
    pub translation: Vec2,
    pub rotation: Rot2,
}

/// A world-space axis-aligned bounding box.
#[derive(Clone, Copy, PartialEq, Eq, Debug)]
pub struct Aabb {
    pub min: Vec2,
    pub max: Vec2,
}

/// The zero vector.
pub open spec fn vec2_zero() -> Vec2 {
    Vec2 { x: 0, y: 0 }
}

/// The identity rotation: cosine one, sine zero.
pub open spec fn rot2_identity() -> Rot2 {
    Rot2 { c: FX_SCALE, s: 0 }
}

/// A host-authored scalar stays within the authored magnitude bound.
pub open spec fn wf_scalar(x: int) -> bool {
    -MAX_AUTHORED <= x <= MAX_AUTHORED
}

pub open spec fn wf_vec(v: Vec2) -> bool {
    wf_scalar(v.x as int) && wf_scalar(v.y as int)
}

/// A rotation's cosine and sine never exceed one in magnitude.
pub open spec fn wf_rot(r: Rot2) -> bool {
    sabs(r.c as int) <= FX_SCALE && sabs(r.s as int) <= FX_SCALE
}

pub open spec fn wf_transform(t: Transform2) -> bool {
    wf_vec(t.translation) && wf_rot(t.rotation)
}

impl Vec2 {
    /// The zero vector, as a value.
    pub fn zero() -> (v: Vec2)
        ensures
            v == vec2_zero(),
    {
        Vec2 { x: 0, y: 0 }
    }
}

impl Rot2 {
    /// The identity rotation, as a value.
    pub fn identity() -> (r: Rot2)
        ensures
            r == rot2_identity(),
    {
        Rot2 { c: FX_SCALE, s: 0 }
    }
}

} // verus!
