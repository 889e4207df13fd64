//! Where the frame already holds glass rather than scene.
//!
//! One copy of the scene per output is what every backdrop blurs out of. Once
//! a backdrop has drawn, the framebuffer under it holds glass, so nothing
//! after it may lift those pixels back into the scene. The refresh reaches a
//! blur radius past the damage it was handed, because the taps at the edge of
//! a piece of glass need real pixels to land on; that skirt reads pixels no
//! backdrop is about to cover, so there last frame's glass is off limits too.
//!
//! The glass record and the skirt are here. Cutting the glass out of the
//! damage and out of the skirt is rectangle subtraction, which the renderer
//! does with the windowing toolkit's own.

use vstd::prelude::*;

use crate::geometry::{can_intersect, spec_intersection, Rectangle};
use crate::rendering::blur::{grow, spec_grow};

verus! {

/// The glass drawn by this frame's backdrops so far, and last frame's, in
/// framebuffer pixels.
pub struct GlassRecord {
    /// Drawn by this frame's backdrops so far.
    pub drawn: Vec<Rectangle>,
    /// Last frame's, for the parts of the frame this one has not repainted:
    /// the old glass is still standing there.
    pub stale: Vec<Rectangle>,
}

impl GlassRecord {
    /// No glass anywhere yet.
    pub fn new() -> (g: Self)
        ensures
            g.drawn@ == Seq::<Rectangle>::empty(),
            g.stale@ == Seq::<Rectangle>::empty(),
    {
        GlassRecord { drawn: Vec::new(), stale: Vec::new() }
    }

    /// Retires last frame's glass: what this frame drew becomes what is left
    /// standing, and the new frame has drawn nothing yet.
    pub fn begin_frame(&mut self)
        ensures
            final(self).stale@ == old(self).drawn@,
            final(self).drawn@ == Seq::<Rectangle>::empty(),
    {
        std::mem::swap(&mut self.stale, &mut self.drawn);
        self.drawn.clear();
    }

    /// Records that `rect` now holds glass. Called whether or not the backdrop
    /// redrew anything: where it did not, the frame is still showing the
    /// glass it drew last time.
    pub fn cover(&mut self, rect: Rectangle)
        ensures
            final(self).drawn@ == old(self).drawn@.push(rect),
            final(self).stale@ == old(self).stale@,
    {
        self.drawn.push(rect);
    }

    /// The glass of either frame: what the skirt has to keep out of.
    pub fn either_frame(&self) -> (v: Vec<Rectangle>)
        ensures
            v@ == self.drawn@ + self.stale@,
    {
        let mut v: Vec<Rectangle> = Vec::new();
        let mut i: usize = 0;
        while i < self.drawn.len()
            invariant
                i <= self.drawn@.len(),
                v@ == self.drawn@.take(i as int),
            decreases self.drawn@.len() - i,
        {
            v.push(self.drawn[i]);
            i = i + 1;
            assert(v@ =~= self.drawn@.take(i as int));
        }
        assert(self.drawn@.take(i as int) =~= self.drawn@);
        let mut j: usize = 0;
        while j < self.stale.len()
            invariant
                j <= self.stale@.len(),
                v@ == self.drawn@ + self.stale@.take(j as int),
            decreases self.stale@.len() - j,
        {
            v.push(self.stale[j]);
            j = j + 1;
            assert(v@ =~= self.drawn@ + self.stale@.take(j as int));
        }
        assert(self.stale@.take(j as int) =~= self.stale@);
        v
    }
}

/// The first `n` damage rectangles, each grown by `radius` and kept to
/// `bounds`; one that falls wholly outside `bounds` is dropped.
pub open spec fn skirt_upto(damage: Seq<Rectangle>, radius: i32, bounds: Rectangle, n: int) -> Seq<Rectangle>
    decreases n,
{
    if n <= 0 {
        Seq::empty()
    } else {
        let before = skirt_upto(damage, radius, bounds, n - 1);
        match spec_intersection(spec_grow(damage[n - 1], radius), bounds) {
            Some(r) => before.push(r),
            None => before,
        }
    }
}

/// Every damage rectangle grown by `radius` and kept to `bounds`.
pub open spec fn spec_skirt(damage: Seq<Rectangle>, radius: i32, bounds: Rectangle) -> Seq<Rectangle> {
    skirt_upto(damage, radius, bounds, damage.len() as int)
}

/// The area a blur of `radius` reads around `damage`, kept to `bounds`: the
/// region the refresh's skirt is cut from, before the damage and the glass
/// are taken out of it.
pub fn skirt(damage: &[Rectangle], radius: i32, bounds: Rectangle) -> (s: Vec<Rectangle>)
    requires
        radius >= 0,
        bounds.size.w >= 0,
        bounds.size.h >= 0,
        forall|i: int| 0 <= i < damage@.len() ==> (#[trigger] damage@[i]).size.w >= 0
            && damage@[i].size.h >= 0,
    ensures
        s@ == spec_skirt(damage@, radius, bounds),
{
    let mut s: Vec<Rectangle> = Vec::new();
    let mut i: usize = 0;
    while i < damage.len()
        invariant
            radius >= 0,
            bounds.size.w >= 0,
            bounds.size.h >= 0,
            forall|k: int| 0 <= k < damage@.len() ==> (#[trigger] damage@[k]).size.w >= 0
                && damage@[k].size.h >= 0,
            i <= damage@.len(),
            s@ == skirt_upto(damage@, radius, bounds, i as int),
        decreases damage@.len() - i,
    {
        let grown = grow(damage[i], radius);
        assert(can_intersect(grown, bounds));
        match grown.intersection(bounds) {
            Some(r) => {
                s.push(r);
            },
            None => {},
        }
        i = i + 1;
    }
    s
}

} // verus!
