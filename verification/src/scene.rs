//! What a frame shows: filled shapes, in window coordinates.

use vstd::prelude::*;
use crate::geometry::Vec2;

verus! {

/// A filled disc.
#[derive(Clone, Copy, Debug, PartialEq, Eq)]
pub struct Circle {
    pub center: Vec2,
    pub radius: i32,
}

/// A filled rectangle with sides along the axes. `top_left` is its corner
/// nearest the origin.
#[derive(Clone, Copy, Debug, PartialEq, Eq)]
pub struct Rectangle {
    pub top_left: Vec2,
    pub width: i32,
    pub height: i32,
}

/// The shapes of one frame.
#[derive(Clone, Copy, Debug, PartialEq, Eq)]
pub struct Scene {
    pub ball: Circle,
    pub paddle: Rectangle,
}

} // verus!
