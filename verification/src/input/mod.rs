//! What the user pressed, and what the compositor does about it.

pub mod decoration;
pub mod gestures;
pub mod keyboard;
pub mod mouse;
pub mod shortcuts;

use std::collections::HashSet;

use vstd::prelude::*;

use crate::input::decoration::{Control, FramePress};
use crate::input::shortcuts::bindings::Bindings;
use crate::input::shortcuts::chord::ModMask;
use crate::layout::WindowId;
use crate::menu::Menus;

verus! {

/// The input side of the compositor's state: the binding table, what the
/// keyboard is holding back, what the pointer is doing on a frame, and the
/// application menus it can open. `L` is whatever the render pass records of
/// where the menus were last drawn.
pub struct State<L> {
    pub bindings: Bindings,
    /// Presses the compositor kept, so their releases are kept too.
    pub intercepted: HashSet<u32>,
    /// The modifier combination being held for a modifier-only chord.
    pub mod_chord_armed: Option<ModMask>,
    /// Whether anything else was pressed while it was held.
    pub mod_chord_polluted: bool,
    /// The frame control the pointer is over, lit up.
    pub hovered_control: Option<(WindowId, Control)>,
    /// A press on a frame control, waiting for its release.
    pub frame_press: Option<FramePress>,
    pub menus: Menus<L>,
    /// Whether the outputs need drawing again.
    pub redraw_queued: bool,
    /// Whether the output under the pointer needs drawing again.
    pub pointer_redraw_queued: bool,
}

impl<L> State<L> {
    pub fn new(bindings: Bindings) -> (s: Self)
        ensures
            s.bindings@ == bindings@,
            s.intercepted@ == Set::<u32>::empty(),
            s.mod_chord_armed is None,
            !s.mod_chord_polluted,
            s.hovered_control is None,
            s.frame_press is None,
            s.menus.open_menu() is None,
            s.menus.addresses() == Map::<WindowId, (Seq<char>, Seq<char>)>::empty(),
            !s.redraw_queued,
            !s.pointer_redraw_queued,
    {
        State {
            bindings,
            intercepted: HashSet::new(),
            mod_chord_armed: None,
            mod_chord_polluted: false,
            hovered_control: None,
            frame_press: None,
            menus: Menus::new(),
            redraw_queued: false,
            pointer_redraw_queued: false,
        }
    }
}

} // verus!
