//! The table a fresh install runs on.
//!
//! Typed rather than written as strings and parsed: a default cannot be a typo
//! that only surfaces as a panic on somebody else's machine.

use vstd::prelude::*;
use vstd::string::*;

use crate::input::shortcuts::action::{Action, ActionView, Direction, WorkspaceRef};
use crate::input::shortcuts::chord::{
    lemma_keysym_injective, spec_chord_of, KeyCode, Keybind, Mods,
};

verus! {

/// How many rows the built-in table has.
pub const DEFAULT_COUNT: usize = 32;

pub open spec fn super_mods() -> Mods {
    Mods { meta: true, ctrl: false, alt: false, shift: false }
}

pub open spec fn super_shift() -> Mods {
    Mods { meta: true, ctrl: false, alt: false, shift: true }
}

pub open spec fn super_ctrl() -> Mods {
    Mods { meta: true, ctrl: true, alt: false, shift: false }
}

/// The digit that reaches workspace `i`, for the first five.
pub open spec fn workspace_key(i: int) -> KeyCode {
    if i == 0 {
        KeyCode::Digit1
    } else if i == 1 {
        KeyCode::Digit2
    } else if i == 2 {
        KeyCode::Digit3
    } else if i == 3 {
        KeyCode::Digit4
    } else {
        KeyCode::Digit5
    }
}

/// Row `i` of the built-in table: the shortcut and what it does.
///
/// `Super+Space` is left alone: the launcher defaults to it, and a compositor
/// binding on the same chord would shadow the launcher.
pub open spec fn spec_default(i: int) -> (Keybind, ActionView) {
    let k = |mods: Mods, key: KeyCode| Keybind { mods, key: Some(key) };
    if i == 0 {
        (k(super_shift(), KeyCode::E), ActionView::Quit)
    } else if i == 1 {
        (k(super_shift(), KeyCode::C), ActionView::ReloadConfig)
    } else if i == 2 {
        (k(super_mods(), KeyCode::Enter), ActionView::Spawn(seq!["foot"@]))
    } else if i == 3 {
        (k(super_mods(), KeyCode::Q), ActionView::CloseWindow)
    } else if i == 4 {
        (k(super_mods(), KeyCode::H), ActionView::Focus(Direction::Left))
    } else if i == 5 {
        (k(super_mods(), KeyCode::L), ActionView::Focus(Direction::Right))
    } else if i == 6 {
        (k(super_mods(), KeyCode::K), ActionView::Focus(Direction::Up))
    } else if i == 7 {
        (k(super_mods(), KeyCode::J), ActionView::Focus(Direction::Down))
    } else if i == 8 {
        (k(super_shift(), KeyCode::H), ActionView::MoveWindow(Direction::Left))
    } else if i == 9 {
        (k(super_shift(), KeyCode::L), ActionView::MoveWindow(Direction::Right))
    } else if i == 10 {
        (k(super_shift(), KeyCode::K), ActionView::MoveWindow(Direction::Up))
    } else if i == 11 {
        (k(super_shift(), KeyCode::J), ActionView::MoveWindow(Direction::Down))
    } else if i == 12 {
        (k(super_mods(), KeyCode::Tab), ActionView::Workspace(WorkspaceRef::Relative(1)))
    } else if i == 13 {
        (k(super_shift(), KeyCode::Tab), ActionView::Workspace(WorkspaceRef::Relative(-1i32)))
    } else if i == 14 {
        (k(super_mods(), KeyCode::V), ActionView::ToggleFloating)
    } else if i == 15 {
        (k(super_mods(), KeyCode::F), ActionView::ToggleFullscreen)
    } else if i == 16 {
        (k(super_mods(), KeyCode::M), ActionView::ToggleMaximize)
    } else if i == 17 {
        (k(super_shift(), KeyCode::Space), ActionView::CycleLayout)
    } else if i == 18 {
        (k(super_ctrl(), KeyCode::Space), ActionView::ToggleLayoutMode)
    } else if i == 19 {
        (k(super_ctrl(), KeyCode::L), ActionView::ResizeSplit("0.05"@))
    } else if i == 20 {
        (k(super_ctrl(), KeyCode::H), ActionView::ResizeSplit("-0.05"@))
    } else if i == 21 {
        (k(super_mods(), KeyCode::P), ActionView::PromoteDemote)
    } else {
        // Derived from the digit's position so the label and the workspace it
        // reaches cannot drift apart.
        let w = (i - 22) / 2;
        if (i - 22) % 2 == 0 {
            (k(super_mods(), workspace_key(w)), ActionView::Workspace(WorkspaceRef::Index(w as usize)))
        } else {
            (
                k(super_shift(), workspace_key(w)),
                ActionView::MoveWindowToWorkspace {
                    target: WorkspaceRef::Index(w as usize),
                    follow: true,
                },
            )
        }
    }
}

fn mods(meta: bool, ctrl: bool, shift: bool) -> (m: Mods)
    ensures
        m == (Mods { meta, ctrl, alt: false, shift }),
{
    Mods { meta, ctrl, alt: false, shift }
}

fn row(m: Mods, key: KeyCode, action: Action) -> (r: (Keybind, Action))
    ensures
        r.0 == (Keybind { mods: m, key: Some(key) }),
        r.1 == action,
{
    (Keybind { mods: m, key: Some(key) }, action)
}

fn default_at(i: usize) -> (r: (Keybind, Action))
    requires
        i < DEFAULT_COUNT,
    ensures
        r.0 == spec_default(i as int).0,
        r.1@ == spec_default(i as int).1,
{
    let sup = mods(true, false, false);
    let sup_shift = mods(true, false, true);
    let sup_ctrl = mods(true, true, false);
    if i == 0 {
        row(sup_shift, KeyCode::E, Action::Quit)
    } else if i == 1 {
        row(sup_shift, KeyCode::C, Action::ReloadConfig)
    } else if i == 2 {
        let mut argv: Vec<String> = Vec::new();
        argv.push(String::from_str("foot"));
        let r = row(sup, KeyCode::Enter, Action::Spawn(argv));
        proof {
            assert(crate::input::shortcuts::action::strings_view(argv@) =~= seq!["foot"@]);
        }
        r
    } else if i == 3 {
        row(sup, KeyCode::Q, Action::CloseWindow)
    } else if i == 4 {
        row(sup, KeyCode::H, Action::Focus(Direction::Left))
    } else if i == 5 {
        row(sup, KeyCode::L, Action::Focus(Direction::Right))
    } else if i == 6 {
        row(sup, KeyCode::K, Action::Focus(Direction::Up))
    } else if i == 7 {
        row(sup, KeyCode::J, Action::Focus(Direction::Down))
    } else if i == 8 {
        row(sup_shift, KeyCode::H, Action::MoveWindow(Direction::Left))
    } else if i == 9 {
        row(sup_shift, KeyCode::L, Action::MoveWindow(Direction::Right))
    } else if i == 10 {
        row(sup_shift, KeyCode::K, Action::MoveWindow(Direction::Up))
    } else if i == 11 {
        row(sup_shift, KeyCode::J, Action::MoveWindow(Direction::Down))
    } else if i == 12 {
        row(sup, KeyCode::Tab, Action::Workspace(WorkspaceRef::Relative(1)))
    } else if i == 13 {
        row(sup_shift, KeyCode::Tab, Action::Workspace(WorkspaceRef::Relative(-1i32)))
    } else if i == 14 {
        row(sup, KeyCode::V, Action::ToggleFloating)
    } else if i == 15 {
        row(sup, KeyCode::F, Action::ToggleFullscreen)
    } else if i == 16 {
        row(sup, KeyCode::M, Action::ToggleMaximize)
    } else if i == 17 {
        row(sup_shift, KeyCode::Space, Action::CycleLayout)
    } else if i == 18 {
        row(sup_ctrl, KeyCode::Space, Action::ToggleLayoutMode)
    } else if i == 19 {
        row(sup_ctrl, KeyCode::L, Action::ResizeSplit(String::from_str("0.05")))
    } else if i == 20 {
        row(sup_ctrl, KeyCode::H, Action::ResizeSplit(String::from_str("-0.05")))
    } else if i == 21 {
        row(sup, KeyCode::P, Action::PromoteDemote)
    } else {
        let w = (i - 22) / 2;
        let key = if w == 0 {
            KeyCode::Digit1
        } else if w == 1 {
            KeyCode::Digit2
        } else if w == 2 {
            KeyCode::Digit3
        } else if w == 3 {
            KeyCode::Digit4
        } else {
            KeyCode::Digit5
        };
        if (i - 22) % 2 == 0 {
            row(sup, key, Action::Workspace(WorkspaceRef::Index(w)))
        } else {
            row(
                sup_shift,
                key,
                Action::MoveWindowToWorkspace { target: WorkspaceRef::Index(w), follow: true },
            )
        }
    }
}

/// Every built-in binding, in table order.
pub fn bindings() -> (v: Vec<(Keybind, Action)>)
    ensures
        v.len() == DEFAULT_COUNT,
        forall|i: int|
            0 <= i < DEFAULT_COUNT ==> (#[trigger] v@[i]).0 == spec_default(i).0 && v@[i].1@
                == spec_default(i).1,
{
    let mut v: Vec<(Keybind, Action)> = Vec::new();
    let mut i: usize = 0;
    while i < DEFAULT_COUNT
        invariant
            i <= DEFAULT_COUNT,
            v.len() == i,
            forall|j: int|
                0 <= j < i ==> (#[trigger] v@[j]).0 == spec_default(j).0 && v@[j].1@
                    == spec_default(j).1,
        decreases DEFAULT_COUNT - i,
    {
        v.push(default_at(i));
        i = i + 1;
    }
    v
}

/// No two rows of the built-in table share a chord: a second one would let
/// the later row win silently.
#[verifier::rlimit(50)]
pub proof fn lemma_defaults_distinct(i: int, j: int)
    requires
        0 <= i < j < DEFAULT_COUNT,
    ensures
        spec_chord_of(spec_default(i).0) != spec_chord_of(spec_default(j).0),
{
    let (a, b) = (spec_default(i).0, spec_default(j).0);
    if a.key->0 == b.key->0 {
        lemma_keysym_injective(a.key->0, b.key->0);
    }
    if spec_chord_of(a) == spec_chord_of(b) {
        lemma_keysym_injective(a.key->0, b.key->0);
        assert(a == b);
    }
}

} // verus!
