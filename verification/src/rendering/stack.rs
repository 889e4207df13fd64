//! Which glass on a frame stands in front of which.
//!
//! Glass draws opaque, so where two pieces overlap only the upper one is ever
//! seen — and the lower one painting there anyway is what made the overlap
//! blur twice: it left its own blurred output in the frame for the upper piece
//! to blur again. So the lower piece skips it.
//!
//! Elements are built front to back, so a backdrop is occluded by exactly the
//! ones built before it.

use vstd::prelude::*;

use crate::geometry::{can_intersect, fits, spec_intersection, Point, Rectangle, Size};

verus! {

/// A pixel of slack around a shape, so the antialiased edge is never counted as
/// opaque. Below that the seam between the two pieces shows.
pub const MARGIN: i32 = 1;

/// `r` shrunk by `x` on the left and right and `y` on the top and bottom.
/// `None` once nothing is left of it.
pub open spec fn spec_inset(r: Rectangle, x: i32, y: i32) -> Option<Rectangle> {
    let w = r.size.w - 2 * x;
    let h = r.size.h - 2 * y;
    if w > 0 && h > 0 {
        Some(
            Rectangle {
                loc: Point { x: (r.loc.x + x) as i32, y: (r.loc.y + y) as i32 },
                size: Size { w: w as i32, h: h as i32 },
            },
        )
    } else {
        None
    }
}

pub open spec fn inset_fits(r: Rectangle, x: i32, y: i32) -> bool {
    &&& fits(2 * x)
    &&& fits(2 * y)
    &&& fits(r.size.w - 2 * x)
    &&& fits(r.size.h - 2 * y)
    &&& (r.size.w - 2 * x > 0 && r.size.h - 2 * y > 0 ==> fits(r.loc.x + x) && fits(r.loc.y + y))
}

pub fn inset(r: Rectangle, x: i32, y: i32) -> (i: Option<Rectangle>)
    requires
        inset_fits(r, x, y),
    ensures
        i == spec_inset(r, x, y),
{
    let w = r.size.w - 2 * x;
    let h = r.size.h - 2 * y;
    if w > 0 && h > 0 {
        Some(Rectangle { loc: Point { x: r.loc.x + x, y: r.loc.y + y }, size: Size { w, h } })
    } else {
        None
    }
}

/// The bands of a rounded rectangle that are opaque: the shape inset by its
/// radius along one axis and then the other, or the whole shape when it is
/// square-cornered — and nothing while the glass is fading.
pub open spec fn spec_bands(mask: Rectangle, radius: i32, opaque: bool) -> Seq<Option<Rectangle>> {
    if !opaque {
        Seq::empty()
    } else if radius <= 0 {
        seq![spec_inset(mask, MARGIN, MARGIN)]
    } else {
        seq![
            spec_inset(mask, (radius + MARGIN) as i32, MARGIN),
            spec_inset(mask, MARGIN, (radius + MARGIN) as i32),
        ]
    }
}

/// The parts of `rects` inside `geometry`, in order.
pub open spec fn clipped(rects: Seq<Rectangle>, geometry: Rectangle) -> Seq<Rectangle>
    decreases rects.len(),
{
    if rects.len() == 0 {
        Seq::empty()
    } else {
        let init = clipped(rects.drop_last(), geometry);
        match spec_intersection(rects.last(), geometry) {
            Some(part) => init.push(part),
            None => init,
        }
    }
}

/// The bands that exist, in order.
pub open spec fn present(bands: Seq<Option<Rectangle>>) -> Seq<Rectangle>
    decreases bands.len(),
{
    if bands.len() == 0 {
        Seq::empty()
    } else {
        let init = present(bands.drop_last());
        match bands.last() {
            Some(b) => init.push(b),
            None => init,
        }
    }
}

/// Where a backdrop is opaque enough to hide what is under it, clipped to
/// the part of the output it draws on.
pub open spec fn spec_opaque_core(mask: Rectangle, radius: i32, opaque: bool, geometry: Rectangle) -> Seq<Rectangle> {
    clipped(present(spec_bands(mask, radius, opaque)), geometry)
}

pub open spec fn core_fits(mask: Rectangle, radius: i32, opaque: bool, geometry: Rectangle) -> bool {
    opaque ==> {
        &&& fits(radius + MARGIN)
        &&& inset_fits(mask, MARGIN, MARGIN)
        &&& inset_fits(mask, (radius + MARGIN) as i32, MARGIN)
        &&& inset_fits(mask, MARGIN, (radius + MARGIN) as i32)
        &&& forall|i: int| 0 <= i < present(spec_bands(mask, radius, opaque)).len()
            ==> can_intersect(#[trigger] present(spec_bands(mask, radius, opaque))[i], geometry)
    }
}

fn clip_into(out: &mut Vec<Rectangle>, rects: &Vec<Rectangle>, geometry: Rectangle)
    requires
        forall|i: int| 0 <= i < rects@.len() ==> can_intersect(#[trigger] rects@[i], geometry),
    ensures
        final(out)@ == old(out)@ + clipped(rects@, geometry),
{
    let ghost start = out@;
    let mut i: usize = 0;
    assert(rects@.take(0) =~= Seq::<Rectangle>::empty());
    assert(start + clipped(Seq::<Rectangle>::empty(), geometry) =~= start);
    while i < rects.len()
        invariant
            i <= rects@.len(),
            forall|k: int| 0 <= k < rects@.len() ==> can_intersect(#[trigger] rects@[k], geometry),
            out@ == start + clipped(rects@.take(i as int), geometry),
        decreases rects@.len() - i,
    {
        assert(rects@.take(i + 1).drop_last() =~= rects@.take(i as int));
        assert(rects@.take(i + 1).last() == rects@[i as int]);
        match rects[i].intersection(geometry) {
            Some(part) => {
                out.push(part);
                assert(out@ =~= start + clipped(rects@.take(i + 1), geometry));
            },
            None => {},
        }
        i = i + 1;
    }
    assert(rects@.take(i as int) =~= rects@);
}

fn opaque_core(mask: Rectangle, radius: i32, opaque: bool, geometry: Rectangle) -> (core: Vec<Rectangle>)
    requires
        core_fits(mask, radius, opaque, geometry),
    ensures
        core@ == spec_opaque_core(mask, radius, opaque, geometry),
{
    let mut bands: Vec<Rectangle> = Vec::new();
    if opaque {
        if radius <= 0 {
            match inset(mask, MARGIN, MARGIN) {
                Some(b) => bands.push(b),
                None => {},
            }
        } else {
            let first = inset(mask, radius + MARGIN, MARGIN);
            let second = inset(mask, MARGIN, radius + MARGIN);
            match first {
                Some(b) => bands.push(b),
                None => {},
            }
            match second {
                Some(b) => bands.push(b),
                None => {},
            }
        }
    }
    proof {
        let s = spec_bands(mask, radius, opaque);
        if opaque && radius > 0 {
            assert(s.drop_last() =~= seq![s[0]]);
            assert(seq![s[0]].drop_last() =~= Seq::<Option<Rectangle>>::empty());
        } else if opaque {
            assert(s.drop_last() =~= Seq::<Option<Rectangle>>::empty());
        }
        reveal_with_fuel(present, 3);
        assert(bands@ =~= present(s));
    }
    let mut core: Vec<Rectangle> = Vec::new();
    clip_into(&mut core, &bands, geometry);
    assert(core@ =~= spec_opaque_core(mask, radius, opaque, geometry));
    core
}

/// The opaque glass built so far for one frame.
#[derive(Debug)]
pub struct GlassStack {
    opaque: Vec<Rectangle>,
}

impl GlassStack {
    pub closed spec fn rects(&self) -> Seq<Rectangle> {
        self.opaque@
    }

    pub fn new() -> (s: Self)
        ensures
            s.rects() == Seq::<Rectangle>::empty(),
    {
        GlassStack { opaque: Vec::new() }
    }

    /// A frame starts with a clear stack.
    pub fn clear(&mut self)
        ensures
            final(self).rects() == Seq::<Rectangle>::empty(),
    {
        self.opaque.clear();
    }

    /// The glass already standing in front of a backdrop drawing on
    /// `geometry`, clipped to it; and, on the way out, the part of the
    /// backdrop that in turn stands in front of everything built after it.
    ///
    /// `mask` is the rounded rectangle the backdrop is shaped by, `radius`
    /// its corner radius in whole pixels, and `opaque` whether it is fully
    /// faded in.
    pub fn occlude(&mut self, mask: Rectangle, radius: i32, opaque: bool, geometry: Rectangle) -> (occluders: Vec<Rectangle>)
        requires
            forall|i: int| 0 <= i < old(self).rects().len() ==> can_intersect(#[trigger] old(self).rects()[i], geometry),
            core_fits(mask, radius, opaque, geometry),
        ensures
            occluders@ == clipped(old(self).rects(), geometry),
            final(self).rects() == old(self).rects() + spec_opaque_core(mask, radius, opaque, geometry),
    {
        let mut occluders: Vec<Rectangle> = Vec::new();
        clip_into(&mut occluders, &self.opaque, geometry);
        assert(occluders@ =~= clipped(old(self).rects(), geometry));
        let core = opaque_core(mask, radius, opaque, geometry);
        let mut i: usize = 0;
        let ghost start = self.opaque@;
        while i < core.len()
            invariant
                i <= core@.len(),
                self.opaque@ == start + core@.take(i as int),
            decreases core@.len() - i,
        {
            self.opaque.push(core[i]);
            i = i + 1;
            assert(self.opaque@ =~= start + core@.take(i as int));
        }
        assert(core@.take(i as int) =~= core@);
        occluders
    }
}

/// Glass that is still fading in hides nothing: whatever is under it still
/// shows through, so the piece below keeps drawing.
pub proof fn lemma_fading_glass_hides_nothing(mask: Rectangle, radius: i32, geometry: Rectangle)
    ensures
        spec_opaque_core(mask, radius, false, geometry) == Seq::<Rectangle>::empty(),
{
    assert(present(spec_bands(mask, radius, false)) =~= Seq::<Rectangle>::empty());
}

} // verus!
