use vstd::prelude::*;

pub mod sprite;

verus! {

/// The width of the canvas, in pixels.
pub const WIDTH: u32 = 5760;

/// The height of the canvas, in pixels.
pub const HEIGHT: u32 = 5760;

/// The side of the square workgroups that the canvas shader runs in.
pub const WORKGROUP_SIZE: u32 = 8;

/// The size of the canvas in pixels: width, then height.
pub fn size() -> (s: (u32, u32))
    ensures
        s == (WIDTH, HEIGHT),
{
    (WIDTH, HEIGHT)
}

/// The point at the middle of the canvas, where the camera starts.
pub fn center() -> (c: (u32, u32))
    ensures
        c == (WIDTH / 2, HEIGHT / 2),
        2 * c.0 == WIDTH,
        2 * c.1 == HEIGHT,
{
    (WIDTH / 2, HEIGHT / 2)
}

} // verus!
