//! Where a pointer button goes before any client hears of it.
//!
//! An open menu owns the next press; a press on a window's frame is the
//! compositor's; a release goes to whichever frame armed the press, even when
//! the pointer has since left it — having left is exactly what cancels the
//! click, and the frame is the only thing that can say so.

use vstd::prelude::*;

use crate::input::decoration::LEFT_BUTTON;
use crate::input::State;
use crate::layout::WindowId;

verus! {

/// Where a button press goes while a menu may be open.
#[derive(Debug, Clone, Copy, PartialEq, Eq, Structural)]
pub enum ButtonRoute {
    /// Inside the open popup: to whichever row it landed on.
    MenuPress,
    /// Outside it: the press is spent closing the menu.
    DismissMenu,
    /// No menu claims it.
    Elsewhere,
}

/// Which frame a button event belongs to, and whether the window under the
/// pointer takes keyboard focus for it.
#[derive(Debug, Clone, Copy, PartialEq, Eq, Structural)]
pub struct ButtonTarget {
    pub frame: Option<WindowId>,
    pub focus_under_pointer: bool,
}

impl<L> State<L> {
    /// A press while a menu is open belongs to the menu: inside it, to the
    /// row it landed on; outside, to dismissing it. Either way no client sees
    /// the click. `in_popup` is whether the pointer is inside the popup.
    pub fn menu_button_route(&self, pressed: bool, grabbed: bool, in_popup: bool) -> (r: ButtonRoute)
        ensures
            r == (if pressed && !grabbed && self.menus.open_menu() is Some {
                if in_popup {
                    ButtonRoute::MenuPress
                } else {
                    ButtonRoute::DismissMenu
                }
            } else {
                ButtonRoute::Elsewhere
            }),
    {
        if pressed && !grabbed && self.menus.open().is_some() {
            if in_popup {
                ButtonRoute::MenuPress
            } else {
                ButtonRoute::DismissMenu
            }
        } else {
            ButtonRoute::Elsewhere
        }
    }

    /// Which frame a button event belongs to, decided before the event is
    /// dispatched. A press counts only for the left button on an ungrabbed
    /// pointer over a frame (`frame_under`); a release belongs to the frame
    /// that armed the press. A press that is no frame's focuses the window
    /// under the pointer.
    pub fn button_target(&self, pressed: bool, grabbed: bool, button: u32, frame_under: Option<WindowId>) -> (t: ButtonTarget)
        ensures
            t.frame == (if pressed {
                if !grabbed && button == LEFT_BUTTON {
                    frame_under
                } else {
                    None
                }
            } else {
                match self.frame_press {
                    Some(press) => Some(press.window),
                    None => None,
                }
            }),
            t.focus_under_pointer == (pressed && !grabbed && t.frame is None),
    {
        let on_left = !grabbed && button == LEFT_BUTTON;
        let frame = if pressed {
            if on_left {
                frame_under
            } else {
                None
            }
        } else {
            match self.frame_press {
                Some(press) => Some(press.window),
                None => None,
            }
        };
        ButtonTarget { frame, focus_under_pointer: pressed && !grabbed && frame.is_none() }
    }
}

} // verus!
