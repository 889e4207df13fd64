//! What the pointer does on a window's frame.
//!
//! The frame is the compositor's own drawing, so no client ever hears about
//! these events. The rules are the ones every desktop already has: the
//! controls close, minimize and maximize; a drag on the bar moves the window;
//! a double-click toggles maximize.
//!
//! Hit-testing happens in the caller, in the frame's own floating-point
//! space; what arrives here is its answer — which control, which menu label,
//! which popup row — and what goes back is what to do.

use vstd::prelude::*;

use crate::input::State;
use crate::layout::WindowId;
use crate::menu::model::{item_views, kept, kept_rows, MenuItem, MenuItemView};
use crate::menu::{find_from, rows_at, Menus, OpenMenuView};

verus! {

/// Linux's `BTN_LEFT`. The only button a frame answers to.
pub const LEFT_BUTTON: u32 = 0x110;

/// A button on a window's titlebar.
#[derive(Debug, Clone, Copy, PartialEq, Eq, Structural)]
pub enum Control {
    Close,
    Minimize,
    Maximize,
}

pub open spec fn control_index(c: Control) -> u8 {
    match c {
        Control::Close => 0,
        Control::Minimize => 1,
        Control::Maximize => 2,
    }
}

impl Control {
    /// The control's slot in the titlebar, as the shader numbers them.
    pub fn index(self) -> (i: u8)
        ensures
            i == control_index(self),
    {
        match self {
            Control::Close => 0,
            Control::Minimize => 1,
            Control::Maximize => 2,
        }
    }
}

/// A press waiting for its release.
///
/// Recorded so a click only fires when it goes down *and* comes up on the same
/// control — dragging off a button to cancel it is behaviour every toolkit has,
/// and its absence is felt immediately.
#[derive(Debug, Clone, Copy, PartialEq, Eq, Structural)]
pub struct FramePress {
    pub window: WindowId,
    pub control: Control,
}

/// What a released click on a control asks of the window.
#[derive(Debug, Clone, Copy, PartialEq, Eq, Structural)]
pub enum FrameAction {
    /// Ask the client to close.
    Close(WindowId),
    ToggleMaximize(WindowId),
    /// Nothing is minimized yet, so this is the nearest honest thing: drop the
    /// window behind whatever else is on the workspace.
    Lower(WindowId),
}

/// What a press on a frame turned into.
#[derive(Debug, Clone, Copy, PartialEq, Eq, Structural)]
pub enum FramePressOutcome {
    /// A menu label was clicked: its menu opened or closed. When it opened,
    /// its contents should be fetched.
    MenuToggled { window: WindowId, item: i32, opened: bool },
    /// A control was pressed; the click fires on release.
    Armed,
    /// The second click of a double-click on the bar.
    ToggleMaximize,
    /// A press on the bar: the window follows the pointer.
    StartMove,
}

/// What a press inside the open menu turned into.
#[derive(Debug, Clone, Copy, PartialEq, Eq, Structural)]
pub enum MenuPress {
    /// It landed on no row: it neither activates anything nor dismisses the
    /// menu.
    Ignored,
    /// It opened a submenu, whose contents should be fetched.
    Descended { window: WindowId, item: i32 },
    /// It chose an item.
    Activate { window: WindowId, item: i32 },
}

/// What the pointer-focus query found under the pointer.
#[derive(Debug, Clone, Copy, PartialEq, Eq, Structural)]
pub struct PointerFocus {
    /// Whether it is a window's frame rather than its contents.
    pub decoration: bool,
    /// The window it belongs to, when it belongs to one.
    pub window: Option<WindowId>,
}

/// The visible rows of whichever menu is open.
pub open spec fn open_rows<L>(menus: Menus<L>) -> Seq<MenuItemView> {
    match menus.open_menu() {
        Some(o) => if menus.bars().contains_key(o.window) {
            match rows_at(menus.bars()[o.window].items, o.path) {
                Some(rows) => kept(rows, false),
                None => Seq::empty(),
            }
        } else {
            Seq::empty()
        },
        None => Seq::empty(),
    }
}

/// Whether the first open row with id `item` opens a submenu.
pub open spec fn opens_submenu(rows: Seq<MenuItemView>, item: i32) -> bool {
    match find_from(rows, item, 0) {
        Some(j) => rows[j].has_submenu,
        None => false,
    }
}

fn same_spot(a: Option<(WindowId, Control)>, b: Option<(WindowId, Control)>) -> (r: bool)
    ensures
        r == (a == b),
{
    match (a, b) {
        (Some(x), Some(y)) => x.0 == y.0 && x.1 == y.1,
        (None, None) => true,
        _ => false,
    }
}

impl<L> State<L> {
    /// Lights the control under the pointer, if it is over a frame at all.
    /// `under` is the control the hit test found there.
    pub fn track_frame_hover(&mut self, over_frame: bool, under: Option<(WindowId, Control)>)
        ensures
            final(self).hovered_control == (if over_frame {
                under
            } else {
                None
            }),
            final(self).pointer_redraw_queued == (old(self).pointer_redraw_queued
                || old(self).hovered_control != final(self).hovered_control),
            final(self).frame_press == old(self).frame_press,
            final(self).menus == old(self).menus,
            final(self).redraw_queued == old(self).redraw_queued,
            final(self).bindings == old(self).bindings,
            final(self).intercepted == old(self).intercepted,
            final(self).mod_chord_armed == old(self).mod_chord_armed,
            final(self).mod_chord_polluted == old(self).mod_chord_polluted,
    {
        let hovered = if over_frame {
            under
        } else {
            None
        };
        if same_spot(self.hovered_control, hovered) {
            return;
        }
        self.hovered_control = hovered;
        self.pointer_redraw_queued = true;
    }

    /// A press on window `id`'s frame. `label` is the menu label under the
    /// pointer, `control` the titlebar control, and `doubled` whether this
    /// press is the second half of a double-click.
    ///
    /// A menu label opens or closes its menu and nothing else. A control only
    /// arms; the click fires on release. The bar itself toggles maximize on a
    /// double-click and starts a move otherwise.
    pub fn press_frame(
        &mut self,
        id: WindowId,
        label: Option<(WindowId, i32)>,
        control: Option<(WindowId, Control)>,
        doubled: bool,
    ) -> (r: FramePressOutcome)
        ensures
            match label {
                Some((window, item)) => {
                    &&& final(self).menus.open_menu() == crate::menu::toggled(
                        old(self).menus.open_menu(),
                        window,
                        item,
                    )
                    &&& r == FramePressOutcome::MenuToggled {
                        window,
                        item,
                        opened: final(self).menus.open_menu() is Some,
                    }
                    &&& final(self).frame_press == old(self).frame_press
                },
                None => {
                    &&& final(self).menus == old(self).menus
                    &&& match control {
                        Some((_, c)) => r == FramePressOutcome::Armed && final(self).frame_press
                            == Some(FramePress { window: id, control: c }),
                        None => final(self).frame_press == old(self).frame_press && r == (if doubled {
                            FramePressOutcome::ToggleMaximize
                        } else {
                            FramePressOutcome::StartMove
                        }),
                    }
                },
            },
            final(self).menus.addresses() == old(self).menus.addresses(),
            final(self).menus.bars() == old(self).menus.bars(),
            final(self).hovered_control == old(self).hovered_control,
            final(self).redraw_queued == old(self).redraw_queued,
            final(self).pointer_redraw_queued == old(self).pointer_redraw_queued,
            final(self).bindings == old(self).bindings,
            final(self).intercepted == old(self).intercepted,
            final(self).mod_chord_armed == old(self).mod_chord_armed,
            final(self).mod_chord_polluted == old(self).mod_chord_polluted,
    {
        if let Some((window, item)) = label {
            self.menus.toggle(window, item);
            let opened = self.menus.open().is_some();
            return FramePressOutcome::MenuToggled { window, item, opened };
        }
        if let Some((_, c)) = control {
            self.frame_press = Some(FramePress { window: id, control: c });
            return FramePressOutcome::Armed;
        }
        if doubled {
            FramePressOutcome::ToggleMaximize
        } else {
            FramePressOutcome::StartMove
        }
    }

    /// A release on window `id`'s frame, with `under` the control now under
    /// the pointer. The armed press fires only if it was on this window and
    /// the pointer is still on the same control; either way it is disarmed.
    pub fn release_frame(&mut self, id: WindowId, under: Option<(WindowId, Control)>) -> (r:
        Option<FrameAction>)
        ensures
            final(self).frame_press is None,
            match old(self).frame_press {
                Some(press) => if press.window == id && under == Some((id, press.control)) {
                    r == Some(
                        match press.control {
                            Control::Close => FrameAction::Close(id),
                            Control::Maximize => FrameAction::ToggleMaximize(id),
                            Control::Minimize => FrameAction::Lower(id),
                        },
                    )
                } else {
                    r is None
                },
                None => r is None,
            },
            final(self).menus == old(self).menus,
            final(self).hovered_control == old(self).hovered_control,
            final(self).redraw_queued == old(self).redraw_queued,
            final(self).pointer_redraw_queued == old(self).pointer_redraw_queued,
            final(self).bindings == old(self).bindings,
            final(self).intercepted == old(self).intercepted,
            final(self).mod_chord_armed == old(self).mod_chord_armed,
            final(self).mod_chord_polluted == old(self).mod_chord_polluted,
    {
        let press = match self.frame_press.take() {
            Some(press) => press,
            None => {
                return None;
            },
        };
        if press.window != id || !same_spot(under, Some((id, press.control))) {
            return None;
        }
        match press.control {
            Control::Close => Some(FrameAction::Close(id)),
            Control::Maximize => Some(FrameAction::ToggleMaximize(id)),
            Control::Minimize => Some(FrameAction::Lower(id)),
        }
    }

    /// The items of the open popup, filtered exactly as the layout filters
    /// them, so a row's rectangle and its label cannot drift apart.
    pub fn open_menu_items(&self) -> (r: Vec<MenuItem>)
        ensures
            item_views(r@) == open_rows(self.menus),
    {
        match self.menus.open_items() {
            Some((_, items)) => kept_rows(items, false),
            None => {
                let r: Vec<MenuItem> = Vec::new();
                proof {
                    crate::menu::model::lemma_views(r@);
                    assert(item_views(r@) =~= Seq::<MenuItemView>::empty());
                }
                r
            },
        }
    }

    /// A press inside the open menu, with `row` the popup row under the
    /// pointer. A row with a submenu opens it; any other row is chosen.
    pub fn on_menu_press(&mut self, row: Option<(WindowId, i32)>) -> (r: MenuPress)
        ensures
            match row {
                None => r == MenuPress::Ignored && final(self).menus == old(self).menus
                    && final(self).redraw_queued == old(self).redraw_queued,
                Some((window, item)) => if opens_submenu(open_rows(old(self).menus), item) {
                    &&& r == MenuPress::Descended { window, item }
                    &&& final(self).menus.open_menu() == crate::menu::descended(
                        old(self).menus.open_menu(),
                        item,
                    )
                    &&& final(self).menus.bars() == old(self).menus.bars()
                    &&& final(self).redraw_queued
                } else {
                    &&& r == MenuPress::Activate { window, item }
                    &&& final(self).menus == old(self).menus
                    &&& final(self).redraw_queued == old(self).redraw_queued
                },
            },
            final(self).frame_press == old(self).frame_press,
            final(self).hovered_control == old(self).hovered_control,
            final(self).menus.addresses() == old(self).menus.addresses(),
            final(self).pointer_redraw_queued == old(self).pointer_redraw_queued,
            final(self).bindings == old(self).bindings,
            final(self).intercepted == old(self).intercepted,
            final(self).mod_chord_armed == old(self).mod_chord_armed,
            final(self).mod_chord_polluted == old(self).mod_chord_polluted,
    {
        let (window, item) = match row {
            Some(hit) => hit,
            None => {
                return MenuPress::Ignored;
            },
        };
        let rows = self.open_menu_items();
        let ghost views = item_views(rows@);
        proof {
            crate::menu::model::lemma_views(rows@);
        }
        let mut j: usize = 0;
        while j < rows.len() && rows[j].id != item
            invariant
                j <= rows.len(),
                views == item_views(rows@),
                views.len() == rows@.len(),
                forall|k: int| 0 <= k < rows@.len() ==> #[trigger] views[k] == crate::menu::model::item_view(rows@[k]),
                find_from(views, item, 0) == find_from(views, item, j as int),
            decreases rows.len() - j,
        {
            j = j + 1;
        }
        let submenu = j < rows.len() && rows[j].has_submenu;
        proof {
            if j < rows.len() {
                assert(views[j as int] == crate::menu::model::item_view(rows@[j as int]));
                assert(find_from(views, item, j as int) == Some(j as int));
            }
        }
        if submenu {
            self.menus.descend(item);
            self.redraw_queued = true;
            MenuPress::Descended { window, item }
        } else {
            MenuPress::Activate { window, item }
        }
    }

    /// The pointer moved inside the open menu, onto `row`.
    pub fn on_menu_motion(&mut self, row: Option<(WindowId, i32)>)
        ensures
            ({
                let id = match row {
                    Some((_, item)) => Some(item),
                    None => None,
                };
                let changed = old(self).menus.open_menu() matches Some(o) && o.highlighted != id;
                &&& final(self).menus.open_menu() == (match old(self).menus.open_menu() {
                    Some(o) => Some(
                        OpenMenuView { window: o.window, path: o.path, highlighted: id },
                    ),
                    None => None,
                })
                &&& final(self).pointer_redraw_queued == (old(self).pointer_redraw_queued
                    || changed)
            }),
            final(self).menus.bars() == old(self).menus.bars(),
            final(self).redraw_queued == old(self).redraw_queued,
            final(self).menus.addresses() == old(self).menus.addresses(),
            final(self).menus.drawn() == old(self).menus.drawn(),
            old(self).menus.well_formed() ==> final(self).menus.well_formed(),
            final(self).hovered_control == old(self).hovered_control,
            final(self).frame_press == old(self).frame_press,
            final(self).bindings == old(self).bindings,
            final(self).intercepted == old(self).intercepted,
            final(self).mod_chord_armed == old(self).mod_chord_armed,
            final(self).mod_chord_polluted == old(self).mod_chord_polluted,
    {
        let highlighted = match row {
            Some((_, item)) => Some(item),
            None => None,
        };
        if self.menus.highlight(highlighted) {
            self.pointer_redraw_queued = true;
        }
    }

    /// Dismisses an open menu, and reports whether there was one.
    ///
    /// A click anywhere outside it closes it, which is the behaviour every
    /// menu everywhere has — and the click itself is spent doing so.
    pub fn dismiss_menu(&mut self) -> (r: bool)
        ensures
            r == old(self).menus.open_menu() is Some,
            final(self).menus.open_menu() is None,
            final(self).menus.bars() == old(self).menus.bars(),
            final(self).redraw_queued == (old(self).redraw_queued || r),
            final(self).menus.addresses() == old(self).menus.addresses(),
            final(self).menus.drawn() == old(self).menus.drawn(),
            final(self).hovered_control == old(self).hovered_control,
            final(self).frame_press == old(self).frame_press,
            final(self).pointer_redraw_queued == old(self).pointer_redraw_queued,
            final(self).bindings == old(self).bindings,
            final(self).intercepted == old(self).intercepted,
            final(self).mod_chord_armed == old(self).mod_chord_armed,
            final(self).mod_chord_polluted == old(self).mod_chord_polluted,
    {
        let closed = self.menus.close();
        if closed {
            self.redraw_queued = true;
        }
        closed
    }

    /// The window whose frame the pointer is over, by id, given what the
    /// pointer-focus query found there.
    pub fn frame_under_pointer(&self, focus: Option<PointerFocus>) -> (r: Option<WindowId>)
        ensures
            r == (match focus {
                Some(f) => if f.decoration {
                    f.window
                } else {
                    None
                },
                None => None,
            }),
    {
        match focus {
            Some(f) => if f.decoration {
                f.window
            } else {
                None
            },
            None => None,
        }
    }
}

} // verus!
