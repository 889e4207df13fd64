//! The first window bookkeeping: which regime arranges the windows, and the
//! ids handed to them as they arrive.

use std::collections::HashMap;

use vstd::prelude::*;

use crate::geometry::Point;
use crate::layout::WindowId;

verus! {

broadcast use vstd::std_specs::hash::group_hash_axioms;

/// Per-window layout state. Nothing is tracked per window yet.
#[derive(Debug, Clone, Copy, PartialEq, Eq, Structural)]
pub struct WindowState {}

impl WindowState {
    pub fn new() -> (s: Self)
        ensures
            s == (WindowState {}),
    {
        WindowState {}
    }
}

#[derive(Debug, Clone, Copy, PartialEq, Eq, Structural)]
pub enum LayoutMode {
    Floating,
    Tiling,
}

pub open spec fn flipped(mode: LayoutMode) -> LayoutMode {
    match mode {
        LayoutMode::Floating => LayoutMode::Tiling,
        LayoutMode::Tiling => LayoutMode::Floating,
    }
}

/// Flipping the mode twice puts it back.
pub proof fn lemma_flip_twice(mode: LayoutMode)
    ensures
        flipped(flipped(mode)) == mode,
{
}

/// The windows a layout manages, by id. `W` is whatever the shell keeps for a
/// window.
pub struct LayoutManager<W> {
    next_window_id: WindowId,
    layout_mode: LayoutMode,
    windows: HashMap<WindowId, W>,
}

impl<W> LayoutManager<W> {
    pub closed spec fn next_id(&self) -> WindowId {
        self.next_window_id
    }

    pub closed spec fn mode(&self) -> LayoutMode {
        self.layout_mode
    }

    pub closed spec fn windows(&self) -> Map<WindowId, W> {
        self.windows@
    }

    pub fn new(layout_mode: LayoutMode) -> (m: Self)
        ensures
            m.next_id() == 0,
            m.mode() == layout_mode,
            m.windows() == Map::<WindowId, W>::empty(),
    {
        LayoutManager { next_window_id: 0, layout_mode, windows: HashMap::new() }
    }

    pub fn toggle_mode(&mut self)
        ensures
            final(self).mode() == flipped(old(self).mode()),
            final(self).next_id() == old(self).next_id(),
            final(self).windows() == old(self).windows(),
    {
        self.layout_mode = match self.layout_mode {
            LayoutMode::Floating => LayoutMode::Tiling,
            LayoutMode::Tiling => LayoutMode::Floating,
        }
    }

    /// Takes a window under management with the next id, and says where it
    /// goes: every new window opens at the same spot for now.
    pub fn add_window(&mut self, window: W) -> (p: Point)
        requires
            old(self).next_id() < u64::MAX,
        ensures
            p == (Point { x: 100, y: 100 }),
            final(self).next_id() == old(self).next_id() + 1,
            final(self).windows() == old(self).windows().insert(old(self).next_id(), window),
            final(self).mode() == old(self).mode(),
    {
        let id = self.next_window_id;
        self.next_window_id = self.next_window_id + 1;
        self.windows.insert(id, window);
        Point { x: 100, y: 100 }
    }

    pub fn remove_window(&mut self, window_id: WindowId)
        ensures
            final(self).windows() == old(self).windows().remove(window_id),
            final(self).next_id() == old(self).next_id(),
            final(self).mode() == old(self).mode(),
    {
        self.windows.remove(&window_id);
    }
}

} // verus!
