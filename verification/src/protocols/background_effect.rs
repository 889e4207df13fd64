//! The blur region a client asks for over `ext-background-effect-v1`.
//!
//! The protocol is only bookkeeping: requests are validated elsewhere and
//! leave a double-buffered region on the surface, which the renderer reads at
//! element-build time through [`BlurRegionCachedState::blur_bounds`].

use vstd::prelude::*;

use crate::geometry::{can_intersect, can_merge, spec_intersection, spec_merge, Point, Rectangle, Size};

verus! {

/// Whether a rectangle of a region adds to it or cuts it out.
#[derive(Debug, Clone, Copy, PartialEq, Eq, Structural)]
pub enum RectangleKind {
    Add,
    Subtract,
}

/// A `wl_region` as a client built it: rectangles in order, each added or
/// subtracted.
#[derive(Debug)]
pub struct RegionAttributes {
    pub rects: Vec<(RectangleKind, Rectangle)>,
}

/// The blur region a client has committed for its surface.
#[derive(Debug)]
pub struct BlurRegionCachedState {
    /// `None` means no blur. The protocol's "empty region" initial state is
    /// represented the same way, because an empty region blurs nothing.
    pub region: Option<RegionAttributes>,
}

impl Default for BlurRegionCachedState {
    fn default() -> (s: Self)
        ensures
            s.region is None,
    {
        BlurRegionCachedState { region: None }
    }
}

/// The bounding box of the first `n` rectangles that add to the region;
/// subtractions only matter for exact-region rendering.
pub open spec fn adds_bounds(rects: Seq<(RectangleKind, Rectangle)>) -> Option<Rectangle>
    decreases rects.len(),
{
    if rects.len() == 0 {
        None
    } else {
        let prev = adds_bounds(rects.drop_last());
        let (kind, r) = rects.last();
        if kind == RectangleKind::Add {
            Some(
                match prev {
                    Some(p) => spec_merge(p, r),
                    None => r,
                },
            )
        } else {
            prev
        }
    }
}

/// Every merge the bounding box takes stays inside `i32`, and so does its
/// clip to a surface of `size`.
pub open spec fn bounds_fit(rects: Seq<(RectangleKind, Rectangle)>, size: Size) -> bool {
    &&& forall|i: int|
        0 <= i < rects.len() ==> (#[trigger] rects[i]).0 == RectangleKind::Add && adds_bounds(
            rects.take(i),
        ) is Some ==> can_merge(adds_bounds(rects.take(i))->0, rects[i].1)
    &&& adds_bounds(rects) matches Some(b) ==> can_intersect(
        b,
        Rectangle { loc: Point { x: 0, y: 0 }, size },
    )
}

/// What blurs: the bounding box of the added rectangles, clipped to a
/// surface of `size`.
pub open spec fn spec_blur_bounds(region: Option<Seq<(RectangleKind, Rectangle)>>, size: Size) -> Option<Rectangle> {
    match region {
        Some(rects) => match adds_bounds(rects) {
            Some(b) => spec_intersection(b, Rectangle { loc: Point { x: 0, y: 0 }, size }),
            None => None,
        },
        None => None,
    }
}

impl BlurRegionCachedState {
    pub open spec fn region_rects(&self) -> Option<Seq<(RectangleKind, Rectangle)>> {
        match self.region {
            Some(r) => Some(r.rects@),
            None => None,
        }
    }

    /// The committed blur region's bounding rectangle, clipped to the surface,
    /// in surface-local logical coordinates. `None` when nothing should blur.
    ///
    /// A bounding box rather than the exact rect list: windows asking for
    /// anything but "all of me" are rare, and one backdrop element per window
    /// keeps damage tracking and the corner mask simple.
    pub fn blur_bounds(&self, surface_size: Size) -> (r: Option<Rectangle>)
        requires
            self.region matches Some(region) ==> bounds_fit(region.rects@, surface_size),
        ensures
            r == spec_blur_bounds(self.region_rects(), surface_size),
    {
        let region = match &self.region {
            Some(region) => region,
            None => {
                return None;
            },
        };
        let mut bounds: Option<Rectangle> = None;
        let mut i: usize = 0;
        assert(region.rects@.take(0) =~= Seq::<(RectangleKind, Rectangle)>::empty());
        while i < region.rects.len()
            invariant
                i <= region.rects@.len(),
                bounds_fit(region.rects@, surface_size),
                bounds == adds_bounds(region.rects@.take(i as int)),
            decreases region.rects@.len() - i,
        {
            let (kind, r) = region.rects[i];
            assert(region.rects@.take(i + 1).drop_last() =~= region.rects@.take(i as int));
            assert(region.rects@.take(i + 1).last() == region.rects@[i as int]);
            if kind == RectangleKind::Add {
                bounds = Some(
                    match bounds {
                        Some(prev) => prev.merge(r),
                        None => r,
                    },
                );
            }
            i = i + 1;
        }
        assert(region.rects@.take(i as int) =~= region.rects@);
        match bounds {
            Some(b) => b.intersection(Rectangle::from_size(surface_size)),
            None => None,
        }
    }
}

} // verus!
