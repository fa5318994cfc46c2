//! The six axis-aligned view directions of a cubemap.
use crate::vec::IVec3;
use vstd::prelude::*;

verus! {

/// A cubemap face: right, left, back, front, top, bottom, numbered from 0.
pub type SixDir = i8;

/// The image-plane axes of face `i` as unit vectors: first the horizontal
/// axis, then the vertical one.
pub open spec fn spec_six_sides_dir(i: SixDir) -> (IVec3, IVec3) {
    if i == 0 {
        (IVec3 { x: 0, y: -1i32, z: 0 }, IVec3 { x: 0, y: 0, z: 1 })
    } else if i == 1 {
        (IVec3 { x: 0, y: 1, z: 0 }, IVec3 { x: 0, y: 0, z: 1 })
    } else if i == 2 {
        (IVec3 { x: -1i32, y: 0, z: 0 }, IVec3 { x: 0, y: 0, z: 1 })
    } else if i == 3 {
        (IVec3 { x: 1, y: 0, z: 0 }, IVec3 { x: 0, y: 0, z: 1 })
    } else if i == 4 {
        (IVec3 { x: 1, y: 0, z: 0 }, IVec3 { x: 0, y: -1i32, z: 0 })
    } else {
        (IVec3 { x: 1, y: 0, z: 0 }, IVec3 { x: 0, y: 1, z: 0 })
    }
}

/// The image-plane axes of face `i`.
pub fn six_sides_dir(i: SixDir) -> (r: (IVec3, IVec3))
    requires
        0 <= i < 6,
    ensures
        r == spec_six_sides_dir(i),
{
    if i == 0 {
        (IVec3 { x: 0, y: -1, z: 0 }, IVec3 { x: 0, y: 0, z: 1 })
    } else if i == 1 {
        (IVec3 { x: 0, y: 1, z: 0 }, IVec3 { x: 0, y: 0, z: 1 })
    } else if i == 2 {
        (IVec3 { x: -1, y: 0, z: 0 }, IVec3 { x: 0, y: 0, z: 1 })
    } else if i == 3 {
        (IVec3 { x: 1, y: 0, z: 0 }, IVec3 { x: 0, y: 0, z: 1 })
    } else if i == 4 {
        (IVec3 { x: 1, y: 0, z: 0 }, IVec3 { x: 0, y: -1, z: 0 })
    } else {
        (IVec3 { x: 1, y: 0, z: 0 }, IVec3 { x: 0, y: 1, z: 0 })
    }
}

} // verus!
