//! Placement policy for windows the layout does not position.
//!
//! [`NoTiling`] is the algorithm a `Floating` workspace uses: every window keeps
//! whatever rect it already has. [`place`] is the separate question of where a
//! window that has never been placed should go.

use vstd::prelude::*;

use crate::geometry::{Rectangle, Size};
use crate::layout::placement::{self, place_fits, spec_place};
use crate::layout::{LayoutInput, LayoutKind, LayoutOutput};

pub use crate::layout::placement::clamp_into;

verus! {

#[derive(Debug, Default)]
pub struct NoTiling;

impl NoTiling {
    pub fn kind(&self) -> (k: LayoutKind)
        ensures
            k == LayoutKind::Floating,
    {
        LayoutKind::Floating
    }

    /// A floating workspace still owes one rect per tile, so the caller's
    /// "exactly one rect per input" contract holds. The workspace overwrites
    /// these with each window's own floating rect.
    pub fn layout(&mut self, input: &LayoutInput, out: &mut LayoutOutput)
        ensures
            final(out).rects@.len() == input.tiles@.len(),
            forall|i: int| 0 <= i < input.tiles@.len() ==> #[trigger] final(out).rects@[i]
                == input.area,
    {
        out.clear();
        let mut i: usize = 0;
        while i < input.tiles.len()
            invariant
                i <= input.tiles@.len(),
                out.rects@.len() == i,
                forall|j: int| 0 <= j < i ==> #[trigger] out.rects@[j] == input.area,
            decreases input.tiles@.len() - i,
        {
            out.rects.push(input.area);
            i = i + 1;
        }
    }
}

/// Where a newly floated window goes: centred on its parent when it has one,
/// otherwise cascaded from the top left.
pub fn place(area: Rectangle, size: Size, parent: Option<Rectangle>, cascade: usize) -> (r: Rectangle)
    requires
        place_fits(size, area, parent, cascade),
    ensures
        r == spec_place(size, area, parent, cascade),
{
    placement::place(size, area, parent, cascade)
}

} // verus!
