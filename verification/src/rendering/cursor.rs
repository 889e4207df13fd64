//! The cursor of last resort, and the check every cursor image passes before
//! it reaches a renderer.
//!
//! A machine with no cursor theme installed is a normal state — a fresh
//! install, a container, a headless test box — and a compositor whose pointer
//! is invisible is unusable. So the built-in source always answers, for every
//! shape, with an arrow drawn from a path by the caller.

use vstd::prelude::*;
use vstd::string::*;

verus! {

/// Below this the arrow's outline swallows the shape.
pub const MIN_SIZE: u32 = 12;

/// The source that draws the arrow itself, registered last so it only ever
/// draws what the real themes could not.
#[derive(Debug, Clone, Copy)]
pub struct BuiltinSource;

impl BuiltinSource {
    /// Identifies this source in logs.
    pub fn describe(&self) -> (s: String)
        ensures
            s@ == "the built-in arrow"@,
    {
        String::from_str("the built-in arrow")
    }

    /// The size the arrow is drawn at for a request of `size` pixels: never
    /// below [`MIN_SIZE`], so an absurd size still gives a drawable arrow.
    pub fn size_for(&self, size: u32) -> (s: u32)
        ensures
            s == (if size > MIN_SIZE {
                size
            } else {
                MIN_SIZE
            }),
            s >= MIN_SIZE,
    {
        if size > MIN_SIZE {
            size
        } else {
            MIN_SIZE
        }
    }
}

/// Whether a cursor image is something a renderer can actually import:
/// positive dimensions, and exactly four bytes for each pixel.
pub open spec fn spec_image_is_valid(width: i32, height: i32, bytes: nat) -> bool {
    width > 0 && height > 0 && bytes == width * height * 4
}

/// Sources parse files off disk, so a truncated or absurd image is a real
/// possibility and must not reach the renderer.
pub fn image_is_valid(width: i32, height: i32, bytes: usize) -> (r: bool)
    ensures
        r == spec_image_is_valid(width, height, bytes as nat),
{
    if width <= 0 || height <= 0 {
        return false;
    }
    let w = width as u128;
    let h = height as u128;
    assert(w * h <= 0x7fff_ffff * 0x7fff_ffff) by (nonlinear_arith)
        requires
            w <= 0x7fff_ffff,
            h <= 0x7fff_ffff,
    ;
    let area = w * h;
    bytes as u128 == area * 4
}

} // verus!
