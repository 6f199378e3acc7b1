//! Small integer vectors used for grid coordinates and directions.

use vstd::prelude::*;

verus! {

/// A pair of unsigned coordinates.
#[derive(Clone, Copy, Debug, PartialEq, Eq, Hash, Structural)]
pub struct UVec2 {
    pub x: u32,
    pub y: u32,
}

impl UVec2 {
    /// Builds a vector from its two components.
    pub fn new(x: u32, y: u32) -> (v: UVec2)
        ensures
            v.x == x,
            v.y == y,
    {
        UVec2 { x, y }
    }

    /// Both components set to `v`.
    pub fn splat(v: u32) -> (r: UVec2)
        ensures
            r.x == v,
            r.y == v,
    {
        UVec2 { x: v, y: v }
    }
}

/// A pair of signed components, used for directions and offsets.
#[derive(Clone, Copy, Debug, PartialEq, Eq, Hash, Structural)]
pub struct IVec2 {
    pub x: i32,
    pub y: i32,
}

impl IVec2 {
    /// Builds a vector from its two components.
    pub fn new(x: i32, y: i32) -> (v: IVec2)
        ensures
            v.x == x,
            v.y == y,
    {
        IVec2 { x, y }
    }
}

/// `a + d` when the sum is a valid `u32`, `None` otherwise.
pub open spec fn checked_add_signed_spec(a: u32, d: i32) -> Option<u32> {
    if 0 <= a + d <= u32::MAX {
        Some((a + d) as u32)
    } else {
        None
    }
}

/// Adds a signed offset to an unsigned coordinate, failing instead of wrapping.
pub fn checked_add_signed(a: u32, d: i32) -> (r: Option<u32>)
    ensures
        r == checked_add_signed_spec(a, d),
{
    if d < 0 {
        let magnitude: u32 = if d == i32::MIN {
            2147483648u32
        } else {
            (-d) as u32
        };
        a.checked_sub(magnitude)
    } else {
        a.checked_add(d as u32)
    }
}

} // verus!
