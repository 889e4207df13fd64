//! What a key press means before any client hears of it: the escape hatch to
//! another VT, the binding table, and modifier-only chords that fire on
//! release.

use vstd::prelude::*;

use crate::input::shortcuts::action::{Action, ActionView};
use crate::input::State;
use crate::input::shortcuts::chord::{Chord, Keysym, ModMask, KEY_XF86SWITCH_VT_1, KEY_XF86SWITCH_VT_12};

verus! {

broadcast use vstd::std_specs::hash::group_hash_axioms;

/// Which evdev keycode a press is treated as. Keycode 66 (Caps Lock) is
/// read as 9 (Escape); keycode 9 itself is first turned into 66 and then
/// straight back into 9.
pub open spec fn spec_remap_keycode(raw: u32) -> u32 {
    let code = if raw == 9 {
        66u32
    } else {
        raw
    };
    if code == 66 {
        9
    } else {
        code
    }
}

pub fn remap_keycode(raw: u32) -> (code: u32)
    ensures
        code == spec_remap_keycode(raw),
{
    let mut code = raw;
    if code == 9 {
        code = 66;
    }
    if code == 66 {
        code = 9;
    }
    code
}

/// The VT a keysym switches to, for `XF86Switch_VT_1..=12`.
pub open spec fn vt_of(sym: Keysym) -> Option<i32> {
    if KEY_XF86SWITCH_VT_1 <= sym <= KEY_XF86SWITCH_VT_12 {
        Some((sym - KEY_XF86SWITCH_VT_1 + 1) as i32)
    } else {
        None
    }
}

/// The first of `syms` that names a VT, if any.
pub open spec fn spec_vt_target(syms: Seq<Keysym>) -> Option<i32>
    decreases syms.len(),
{
    if syms.len() == 0 {
        None
    } else {
        match vt_of(syms[0]) {
            Some(vt) => Some(vt),
            None => spec_vt_target(syms.drop_first()),
        }
    }
}

/// The VT the held keys ask for: Ctrl+Alt+F<n> as the keymap reports it.
pub fn vt_switch_target(syms: &Vec<Keysym>) -> (r: Option<i32>)
    ensures
        r == spec_vt_target(syms@),
{
    let mut i: usize = 0;
    assert(syms@.skip(0) =~= syms@);
    while i < syms.len()
        invariant
            i <= syms.len(),
            spec_vt_target(syms@) == spec_vt_target(syms@.skip(i as int)),
        decreases syms.len() - i,
    {
        assert(syms@.skip(i as int).drop_first() =~= syms@.skip(i + 1));
        let sym = syms[i];
        if KEY_XF86SWITCH_VT_1 <= sym && sym <= KEY_XF86SWITCH_VT_12 {
            return Some((sym - KEY_XF86SWITCH_VT_1 + 1) as i32);
        }
        i = i + 1;
    }
    None
}

/// A key press or release, as much of it as the shortcut filter reads.
pub struct KeyEvent {
    pub pressed: bool,
    /// The keycode, as the seat keeps it.
    pub raw_code: u32,
    /// Every keysym the key produces with the current modifiers.
    pub modified_syms: Vec<Keysym>,
    /// The layout-independent symbol, when the keymap has one.
    pub raw_sym: Option<Keysym>,
    /// The symbol with the current modifiers applied.
    pub modified_sym: Keysym,
    /// The modifiers held while it happened.
    pub mods: ModMask,
}

impl<L> State<L> {
    /// Decides whether a key event is the compositor's. `Some` is what to
    /// do, and the client never hears of the key; `None` forwards it.
    ///
    /// A press first disqualifies any modifier-only chord being held. Then
    /// Ctrl+Alt+F<n> wins over everything — it is the way out of a wedged
    /// session, and no client grab may take it away. With shortcuts
    /// inhibited the press goes to the client; otherwise the binding table
    /// decides. A release is kept exactly when its press was.
    pub fn on_keyboard_key(&mut self, event: &KeyEvent, bypass: bool) -> (r: Option<Action>)
        ensures
            final(self).bindings@ == old(self).bindings@,
            final(self).menus == old(self).menus,
            final(self).mod_chord_armed == old(self).mod_chord_armed,
            event.pressed ==> final(self).mod_chord_polluted,
            !event.pressed ==> final(self).mod_chord_polluted == old(self).mod_chord_polluted,
            event.pressed ==> ({
                let bindings = old(self).bindings@;
                let vt = spec_vt_target(event.modified_syms@);
                let first = match event.raw_sym {
                    Some(k) => bindings.contains_key(Chord { mods: event.mods, key: Some(k) }),
                    None => false,
                };
                let fallback = Chord { mods: event.mods, key: Some(event.modified_sym) };
                let bound = first || bindings.contains_key(fallback);
                if vt is Some {
                    &&& r matches Some(a) && a@ == ActionView::SwitchVt(vt->0)
                    &&& final(self).intercepted@ == old(self).intercepted@.insert(event.raw_code)
                } else if bypass || !bound {
                    &&& r is None
                    &&& final(self).intercepted@ == old(self).intercepted@
                } else {
                    &&& r matches Some(a) && a@ == (if first {
                        bindings[Chord { mods: event.mods, key: event.raw_sym }]
                    } else {
                        bindings[fallback]
                    })
                    &&& final(self).intercepted@ == old(self).intercepted@.insert(event.raw_code)
                }
            }),
            !event.pressed ==> ({
                let kept = old(self).intercepted@.contains(event.raw_code);
                &&& final(self).intercepted@ == old(self).intercepted@.remove(event.raw_code)
                &&& (kept ==> (r matches Some(a) && a@ is NoAction))
                &&& (!kept ==> r is None)
            }),
    {
        if event.pressed {
            self.mod_chord_polluted = true;
            if let Some(vt) = vt_switch_target(&event.modified_syms) {
                self.intercepted.insert(event.raw_code);
                return Some(Action::SwitchVt(vt));
            }
            if bypass {
                return None;
            }
            match self.bindings.lookup(event.mods, event.raw_sym, event.modified_sym) {
                Some(action) => {
                    self.intercepted.insert(event.raw_code);
                    Some(action)
                },
                None => None,
            }
        } else {
            if self.intercepted.remove(&event.raw_code) {
                Some(Action::NoAction)
            } else {
                None
            }
        }
    }

    /// Tracks a held modifier-only chord: a new or extended combination
    /// re-arms it, clean.
    pub fn update_mod_chord(&mut self, mask: ModMask)
        ensures
            final(self).bindings@ == old(self).bindings@,
            final(self).intercepted@ == old(self).intercepted@,
            final(self).menus == old(self).menus,
            mask.is_empty_spec() ==> final(self).mod_chord_armed == old(self).mod_chord_armed
                && final(self).mod_chord_polluted == old(self).mod_chord_polluted,
            !mask.is_empty_spec() && old(self).mod_chord_armed != Some(mask) ==> final(self).mod_chord_armed == Some(mask) && !final(self).mod_chord_polluted,
            !mask.is_empty_spec() && old(self).mod_chord_armed == Some(mask) ==> final(self).mod_chord_armed == old(self).mod_chord_armed && final(self).mod_chord_polluted
                == old(self).mod_chord_polluted,
    {
        if mask.is_empty() {
            return;
        }
        let same = match self.mod_chord_armed {
            Some(armed) => armed.logo == mask.logo && armed.ctrl == mask.ctrl && armed.alt
                == mask.alt && armed.shift == mask.shift,
            None => false,
        };
        if !same {
            self.mod_chord_armed = Some(mask);
            self.mod_chord_polluted = false;
        }
    }

    /// The modifier-only chord that fires now, on the release edge: only
    /// once every modifier is up, and only if nothing else was pressed while
    /// it was held. Disarms either way.
    pub fn take_mod_chord_action(&mut self, mask: ModMask) -> (r: Option<Action>)
        ensures
            final(self).bindings@ == old(self).bindings@,
            final(self).intercepted@ == old(self).intercepted@,
            final(self).menus == old(self).menus,
            !mask.is_empty_spec() ==> r is None && final(self).mod_chord_armed == old(self).mod_chord_armed && final(self).mod_chord_polluted == old(self).mod_chord_polluted,
            mask.is_empty_spec() ==> final(self).mod_chord_armed is None,
            mask.is_empty_spec() && old(self).mod_chord_armed is Some ==> !final(self).mod_chord_polluted,
            mask.is_empty_spec() && old(self).mod_chord_armed is None ==> final(self).mod_chord_polluted == old(self).mod_chord_polluted,
            mask.is_empty_spec() ==> match r {
                Some(a) => old(self).mod_chord_armed is Some && !old(self).mod_chord_polluted
                    && old(self).bindings@.contains_key(
                    Chord { mods: old(self).mod_chord_armed->0, key: None },
                ) && a@ == old(self).bindings@[Chord { mods: old(self).mod_chord_armed->0, key: None }],
                None => old(self).mod_chord_armed is None || old(self).mod_chord_polluted
                    || !old(self).bindings@.contains_key(
                    Chord { mods: old(self).mod_chord_armed->0, key: None },
                ),
            },
    {
        if !mask.is_empty() {
            return None;
        }
        let armed = match self.mod_chord_armed.take() {
            Some(armed) => armed,
            None => {
                return None;
            },
        };
        let polluted = self.mod_chord_polluted;
        self.mod_chord_polluted = false;
        if polluted {
            return None;
        }
        self.bindings.lookup_mod_only(armed)
    }
}

impl ModMask {
    pub open spec fn is_empty_spec(self) -> bool {
        !self.logo && !self.ctrl && !self.alt && !self.shift
    }
}

} // verus!
