//! Where the open menu's popup hangs.
//!
//! The row and the popup are laid out once per frame, in global logical
//! coordinates, and the result is recorded so input and rendering read one
//! answer instead of computing two.

use vstd::prelude::*;

use crate::geometry::{fits, Point, Rectangle};

verus! {

/// One label of the menu row, as laid out.
#[derive(Debug, Clone, Copy, PartialEq, Eq, Structural)]
pub struct RowEntry {
    /// The item the label opens.
    pub id: i32,
    pub rect: Rectangle,
}

/// The point just below `rect`'s bottom-left corner.
pub open spec fn below(rect: Rectangle) -> Point {
    Point { x: rect.loc.x, y: (rect.loc.y + rect.size.h) as i32 }
}

/// The first entry of `row` for item `id`, from `i` on.
pub open spec fn entry_from(row: Seq<RowEntry>, id: i32, i: int) -> Option<RowEntry>
    decreases row.len() - i,
{
    if i < 0 || i >= row.len() {
        None
    } else if row[i].id == id {
        Some(row[i])
    } else {
        entry_from(row, id, i + 1)
    }
}

/// Where the popup for `open` hangs: below the label that opened it, or below
/// the row's start when that label is no longer drawn.
pub open spec fn spec_popup_anchor(row: Seq<RowEntry>, open: Option<i32>, fallback: Rectangle) -> Point {
    match open {
        Some(id) => match entry_from(row, id, 0) {
            Some(entry) => below(entry.rect),
            None => below(fallback),
        },
        None => below(fallback),
    }
}

/// A popup hangs below the label that opened it, or below the row's start when
/// that label is no longer drawn — a menu whose label was squeezed out by a
/// narrowing window still has to appear somewhere sensible.
pub fn popup_anchor(row: &[RowEntry], open: Option<i32>, fallback: Rectangle) -> (p: Point)
    requires
        forall|i: int| 0 <= i < row@.len() ==> fits((#[trigger] row@[i]).rect.loc.y + row@[i].rect.size.h),
        fits(fallback.loc.y + fallback.size.h),
    ensures
        p == spec_popup_anchor(row@, open, fallback),
{
    if let Some(id) = open {
        let mut i: usize = 0;
        while i < row.len()
            invariant
                i <= row@.len(),
                open == Some(id),
                forall|k: int| 0 <= k < row@.len() ==> fits((#[trigger] row@[k]).rect.loc.y + row@[k].rect.size.h),
                entry_from(row@, id, 0) == entry_from(row@, id, i as int),
            decreases row@.len() - i,
        {
            if row[i].id == id {
                let rect = row[i].rect;
                return Point { x: rect.loc.x, y: rect.loc.y + rect.size.h };
            }
            i = i + 1;
        }
    }
    Point { x: fallback.loc.x, y: fallback.loc.y + fallback.size.h }
}

} // verus!
