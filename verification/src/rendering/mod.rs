//! What a frame draws that is worth deciding apart from drawing it: whether
//! an output needs the colour pipeline, what a frame's pixels depend on, the
//! fallback cursor, the blur pyramid's shape, and which glass hides which.

pub mod blur;
pub mod color;
pub mod cursor;
pub mod label;
pub mod scene;
pub mod stack;

use vstd::prelude::*;

use crate::input::decoration::{control_index, Control};

verus! {

/// The hover component of a frame's appearance: the control's slot, or 255
/// when the pointer is on none.
pub open spec fn hover_code(hovered: Option<Control>) -> u64 {
    match hovered {
        Some(c) => control_index(c) as u64,
        None => 255,
    }
}

/// What a frame's pixels depend on, as one number: focus, then dark mode,
/// then the hovered control, each in a byte of its own.
pub open spec fn spec_appearance_key(focused: bool, hovered: Option<Control>, dark: bool) -> u64 {
    ((if focused {
        65536int
    } else {
        0
    }) + (if dark {
        256int
    } else {
        0
    }) + hover_code(hovered)) as u64
}

/// What a frame's *pixels* depend on, packed so the commit counter can tell in
/// one comparison whether they changed.
pub fn appearance_key(focused: bool, hovered: Option<Control>, dark: bool) -> (k: u64)
    ensures
        k == spec_appearance_key(focused, hovered, dark),
{
    let hover: u64 = match hovered {
        Some(control) => control.index() as u64,
        None => 255,
    };
    let f: u64 = if focused {
        1
    } else {
        0
    };
    let d: u64 = if dark {
        1
    } else {
        0
    };
    let k = (f << 16u64) | (d << 8u64) | hover;
    assert(k == f * 65536 + d * 256 + hover) by (bit_vector)
        requires
            k == (f << 16u64) | (d << 8u64) | hover,
            f <= 1,
            d <= 1,
            hover < 256,
    ;
    k
}

/// Frames that look different never share a key, so one comparison is
/// enough to tell whether a frame's pixels changed.
pub proof fn lemma_appearance_key_distinguishes(
    f1: bool,
    h1: Option<Control>,
    d1: bool,
    f2: bool,
    h2: Option<Control>,
    d2: bool,
)
    requires
        spec_appearance_key(f1, h1, d1) == spec_appearance_key(f2, h2, d2),
    ensures
        f1 == f2 && h1 == h2 && d1 == d2,
{
}

} // verus!
