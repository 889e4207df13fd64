//! The binding table: the defaults, whatever the config lays over them, and
//! lookup from a key event.

use std::collections::HashMap;

use vstd::prelude::*;

use crate::input::shortcuts::action::{Action, ActionView, Direction, WorkspaceRef};
use crate::input::shortcuts::chord::{spec_chord_of, Chord, KeyCode, Keybind, Keysym, ModMask, Mods};
use crate::input::shortcuts::custom::{overrides, rows_parseable, spec_overrides, BindingRow, Override};
use crate::input::shortcuts::defaults::{
    self, lemma_defaults_distinct, spec_default, super_mods, super_shift, workspace_key,
    DEFAULT_COUNT,
};

verus! {

broadcast use vstd::std_specs::hash::group_hash_axioms;

/// A modifier mask as four bits.
pub open spec fn mask_bits(m: ModMask) -> u64 {
    ((if m.logo {
        1int
    } else {
        0
    }) + (if m.ctrl {
        2int
    } else {
        0
    }) + (if m.alt {
        4int
    } else {
        0
    }) + (if m.shift {
        8int
    } else {
        0
    })) as u64
}

/// A chord as one integer: its keysym above the four modifier bits.
pub open spec fn chord_code(c: Chord) -> u64 {
    match c.key {
        Some(k) => ((k as int + 1) * 16 + mask_bits(c.mods)) as u64,
        None => mask_bits(c.mods),
    }
}

proof fn lemma_mask_bits(a: ModMask, b: ModMask)
    ensures
        mask_bits(a) < 16,
        mask_bits(a) == mask_bits(b) ==> a == b,
{
}

proof fn lemma_chord_code(a: Chord, b: Chord)
    requires
        a.key is Some,
        b.key is Some,
    ensures
        chord_code(a) == chord_code(b) ==> a == b,
{
    lemma_mask_bits(a.mods, b.mods);
    lemma_mask_bits(b.mods, a.mods);
    let ka = a.key->0 as int;
    let kb = b.key->0 as int;
    let ba = mask_bits(a.mods) as int;
    let bb = mask_bits(b.mods) as int;
    if chord_code(a) == chord_code(b) {
        assert((ka + 1) * 16 + ba == (kb + 1) * 16 + bb);
        assert(ka == kb && ba == bb) by (nonlinear_arith)
            requires
                (ka + 1) * 16 + ba == (kb + 1) * 16 + bb,
                0 <= ba < 16,
                0 <= bb < 16,
        ;
    }
}

fn mask_code(m: ModMask) -> (r: u64)
    ensures
        r == mask_bits(m),
{
    (if m.logo {
        1
    } else {
        0
    }) + (if m.ctrl {
        2
    } else {
        0
    }) + (if m.alt {
        4
    } else {
        0
    }) + (if m.shift {
        8
    } else {
        0
    })
}

fn key_code(mods: ModMask, key: Keysym) -> (r: u64)
    ensures
        r == chord_code(Chord { mods, key: Some(key) }),
{
    (key as u64 + 1) * 16 + mask_code(mods)
}

/// What the table binds, chord by chord.
pub type BindingsView = Map<Chord, ActionView>;

/// A chord that binds nothing: no modifiers and no key.
pub open spec fn chord_is_empty(c: Chord) -> bool {
    !c.mods.logo && !c.mods.ctrl && !c.mods.alt && !c.mods.shift && c.key is None
}

/// One config row laid over the table: a row with no shortcut binds nothing,
/// `none` deletes the chord, and anything else rebinds it.
pub open spec fn apply_override(m: BindingsView, o: (Chord, ActionView)) -> BindingsView {
    if chord_is_empty(o.0) {
        m
    } else if o.1 is NoAction {
        m.remove(o.0)
    } else {
        m.insert(o.0, o.1)
    }
}

/// Every row laid over the table in turn.
pub open spec fn apply_all(m: BindingsView, os: Seq<(Chord, ActionView)>) -> BindingsView
    decreases os.len(),
{
    if os.len() == 0 {
        m
    } else {
        apply_override(apply_all(m, os.drop_last()), os.last())
    }
}

/// The first `n` built-in rows, bound in table order.
pub open spec fn spec_defaults_upto(n: int) -> BindingsView
    decreases n,
{
    if n <= 0 {
        Map::empty()
    } else {
        spec_defaults_upto(n - 1).insert(
            spec_chord_of(spec_default(n - 1).0),
            spec_default(n - 1).1,
        )
    }
}

/// The built-in table.
pub open spec fn spec_default_bindings() -> BindingsView {
    spec_defaults_upto(DEFAULT_COUNT as int)
}

#[derive(Debug, Default)]
pub struct Bindings {
    keys: HashMap<u64, Action>,
    /// Modifier-only chords, fired on the release edge.
    mod_only: HashMap<u64, Action>,
}

impl Bindings {
    /// What `chord` is bound to, if anything.
    pub closed spec fn bound(&self, c: Chord) -> Option<ActionView> {
        match c.key {
            Some(_) => if self.keys@.contains_key(chord_code(c)) {
                Some(self.keys@[chord_code(c)]@)
            } else {
                None
            },
            None => if self.mod_only@.contains_key(mask_bits(c.mods)) {
                Some(self.mod_only@[mask_bits(c.mods)]@)
            } else {
                None
            },
        }
    }
}

impl View for Bindings {
    type V = BindingsView;

    closed spec fn view(&self) -> BindingsView {
        Map::new(|c: Chord| self.bound(c) is Some, |c: Chord| self.bound(c)->0)
    }
}

impl Bindings {
    /// Nothing bound at all.
    pub fn new() -> (b: Self)
        ensures
            b@ == Map::<Chord, ActionView>::empty(),
    {
        let b = Bindings { keys: HashMap::new(), mod_only: HashMap::new() };
        assert(b@ =~= Map::<Chord, ActionView>::empty());
        b
    }

    fn bind(&mut self, chord: Chord, action: Action)
        ensures
            final(self)@ == old(self)@.insert(chord, action@),
    {
        let ghost a = action@;
        match chord.key {
            Some(k) => {
                self.keys.insert(key_code(chord.mods, k), action);
            },
            None => {
                self.mod_only.insert(mask_code(chord.mods), action);
            },
        }
        proof {
            assert forall|c: Chord| self.bound(c) == (if c == chord {
                Some(a)
            } else {
                old(self).bound(c)
            }) by {
                lemma_mask_bits(c.mods, chord.mods);
                if c.key is Some && chord.key is Some {
                    lemma_chord_code(c, chord);
                }
            }
            assert(self@ =~= old(self)@.insert(chord, a));
        }
    }

    fn unbind(&mut self, chord: Chord)
        ensures
            final(self)@ == old(self)@.remove(chord),
    {
        match chord.key {
            Some(k) => {
                self.keys.remove(&key_code(chord.mods, k));
            },
            None => {
                self.mod_only.remove(&mask_code(chord.mods));
            },
        }
        proof {
            assert forall|c: Chord| self.bound(c) == (if c == chord {
                None
            } else {
                old(self).bound(c)
            }) by {
                lemma_mask_bits(c.mods, chord.mods);
                if c.key is Some && chord.key is Some {
                    lemma_chord_code(c, chord);
                }
            }
            assert(self@ =~= old(self)@.remove(chord));
        }
    }

    /// The built-in table.
    pub fn defaults() -> (b: Self)
        ensures
            b@ == spec_default_bindings(),
    {
        let table = defaults::bindings();
        let mut b = Bindings::new();
        let mut i: usize = 0;
        while i < table.len()
            invariant
                table.len() == DEFAULT_COUNT,
                i <= table.len(),
                forall|j: int|
                    0 <= j < DEFAULT_COUNT ==> (#[trigger] table@[j]).0 == spec_default(j).0
                        && table@[j].1@ == spec_default(j).1,
                b@ == spec_defaults_upto(i as int),
            decreases table.len() - i,
        {
            let (bind, action) = (table[i].0, table[i].1.duplicate());
            assert(table@[i as int].0 == spec_default(i as int).0);
            b.bind(Chord::from_keybind(bind), action);
            i = i + 1;
        }
        b
    }

    /// The defaults with the config's rows laid over them.
    ///
    /// A row rebinds one chord and leaves every other alone, so adding a
    /// shortcut cannot cost the user their way out of the session. Binding
    /// `none` deletes a chord instead, which hands the key back to whatever
    /// has focus — the only way to reach an application's own `Super+L`.
    pub fn with_custom(rows: &Vec<BindingRow>) -> (b: Self)
        requires
            rows_parseable(rows@),
        ensures
            b@ == apply_all(spec_default_bindings(), spec_overrides(rows@)),
    {
        let mut b = Self::defaults();
        let os = overrides(rows);
        let ghost seq = os@.map_values(|o: Override| (o.chord, o.action@));
        let mut i: usize = 0;
        while i < os.len()
            invariant
                i <= os.len(),
                seq == os@.map_values(|o: Override| (o.chord, o.action@)),
                b@ == apply_all(spec_default_bindings(), seq.take(i as int)),
            decreases os.len() - i,
        {
            proof {
                assert(seq.take(i + 1).drop_last() =~= seq.take(i as int));
                assert(seq.take(i + 1).last() == seq[i as int]);
            }
            let chord = os[i].chord;
            if chord.is_empty() {
            } else if os[i].action.is_none() {
                b.unbind(chord);
            } else {
                b.bind(chord, os[i].action.duplicate());
            }
            i = i + 1;
        }
        assert(seq.take(os.len() as int) =~= seq);
        b
    }

    /// What `chord` is bound to.
    pub fn get(&self, chord: Chord) -> (r: Option<Action>)
        ensures
            match r {
                Some(a) => self@.contains_key(chord) && self@[chord] == a@,
                None => !self@.contains_key(chord),
            },
    {
        let found = match chord.key {
            Some(k) => self.keys.get(&key_code(chord.mods, k)),
            None => self.mod_only.get(&mask_code(chord.mods)),
        };
        match found {
            Some(a) => Some(a.duplicate()),
            None => None,
        }
    }

    /// The action a key press fires.
    ///
    /// Prefers the layout-independent symbol, so Super+Q is still Super+Q on
    /// a Cyrillic or Dvorak keymap, then falls back to the modified symbol.
    pub fn lookup(&self, mods: ModMask, raw: Option<Keysym>, modified: Keysym) -> (r: Option<
        Action,
    >)
        ensures
            ({
                let first = match raw {
                    Some(k) => self@.contains_key(Chord { mods, key: Some(k) }),
                    None => false,
                };
                let fallback = Chord { mods, key: Some(modified) };
                match r {
                    Some(a) => if first {
                        a@ == self@[Chord { mods, key: raw }]
                    } else {
                        self@.contains_key(fallback) && a@ == self@[fallback]
                    },
                    None => !first && !self@.contains_key(fallback),
                }
            }),
    {
        if let Some(k) = raw {
            if let Some(a) = self.get(Chord { mods, key: Some(k) }) {
                return Some(a);
            }
        }
        self.get(Chord { mods, key: Some(modified) })
    }

    /// The action a modifier-only chord fires on release.
    pub fn lookup_mod_only(&self, mods: ModMask) -> (r: Option<Action>)
        ensures
            match r {
                Some(a) => self@.contains_key(Chord { mods, key: None }) && self@[Chord {
                    mods,
                    key: None,
                }] == a@,
                None => !self@.contains_key(Chord { mods, key: None }),
            },
    {
        self.get(Chord { mods, key: None })
    }
}

/// A chord that no row names keeps whatever the table under the rows bound
/// it to: adding a shortcut cannot cost another one.
pub proof fn lemma_unnamed_chord_untouched(m: BindingsView, os: Seq<(Chord, ActionView)>, c: Chord)
    requires
        forall|i: int| 0 <= i < os.len() ==> (#[trigger] os[i]).0 != c,
    ensures
        apply_all(m, os).contains_key(c) == m.contains_key(c),
        m.contains_key(c) ==> apply_all(m, os)[c] == m[c],
    decreases os.len(),
{
    if os.len() > 0 {
        assert forall|i: int| 0 <= i < os.drop_last().len() implies (#[trigger] os.drop_last()[i]).0
            != c by {
            assert(os.drop_last()[i] == os[i]);
        }
        lemma_unnamed_chord_untouched(m, os.drop_last(), c);
        assert(os.last() == os[os.len() - 1]);
    }
}

/// The last row on a chord decides it: bound to that row's action, or
/// unbound when the action is `none`.
pub proof fn lemma_last_row_wins(m: BindingsView, os: Seq<(Chord, ActionView)>, i: int)
    requires
        0 <= i < os.len(),
        !chord_is_empty(os[i].0),
        forall|j: int| i < j < os.len() ==> (#[trigger] os[j]).0 != os[i].0,
    ensures
        os[i].1 is NoAction ==> !apply_all(m, os).contains_key(os[i].0),
        !(os[i].1 is NoAction) ==> apply_all(m, os).contains_key(os[i].0) && apply_all(m, os)[os[i].0]
            == os[i].1,
    decreases os.len(),
{
    if i == os.len() - 1 {
        assert(os.last() == os[i]);
    } else {
        assert forall|j: int| i < j < os.drop_last().len() implies (#[trigger] os.drop_last()[j]).0
            != os.drop_last()[i].0 by {
            assert(os.drop_last()[j] == os[j]);
        }
        lemma_last_row_wins(m, os.drop_last(), i);
        assert(os.drop_last()[i] == os[i]);
        assert(os.last() == os[os.len() - 1]);
    }
}

/// A chord with no modifiers and no key binds nothing, whatever the rows say.
pub proof fn lemma_empty_chord_unbindable(m: BindingsView, os: Seq<(Chord, ActionView)>, c: Chord)
    requires
        chord_is_empty(c),
    ensures
        apply_all(m, os).contains_key(c) == m.contains_key(c),
        m.contains_key(c) ==> apply_all(m, os)[c] == m[c],
    decreases os.len(),
{
    if os.len() > 0 {
        lemma_empty_chord_unbindable(m, os.drop_last(), c);
    }
}

/// Every built-in row up to `n` is bound as written: no later row takes its
/// chord.
proof fn lemma_defaults_upto_hold(n: int, i: int)
    requires
        0 <= i < n <= DEFAULT_COUNT,
    ensures
        spec_defaults_upto(n).contains_key(spec_chord_of(spec_default(i).0)),
        spec_defaults_upto(n)[spec_chord_of(spec_default(i).0)] == spec_default(i).1,
    decreases n,
{
    if i < n - 1 {
        lemma_defaults_upto_hold(n - 1, i);
        lemma_defaults_distinct(i, n - 1);
    }
}

/// Each row of the built-in table is what the table binds its chord to.
pub proof fn lemma_default_row_bound(i: int)
    requires
        0 <= i < DEFAULT_COUNT,
    ensures
        spec_default_bindings().contains_key(spec_chord_of(spec_default(i).0)),
        spec_default_bindings()[spec_chord_of(spec_default(i).0)] == spec_default(i).1,
{
    lemma_defaults_upto_hold(DEFAULT_COUNT as int, i);
}

/// The vim key for a direction: H, L, K and J for left, right, up and down.
pub open spec fn vim_key(d: Direction) -> KeyCode {
    match d {
        Direction::Left => KeyCode::H,
        Direction::Right => KeyCode::L,
        Direction::Up => KeyCode::K,
        Direction::Down => KeyCode::J,
    }
}

/// The built-in table follows the vim keys: Super with H, L, K or J moves
/// focus left, right, up or down, and Super+Shift with the same key moves the
/// window that way, so every direction can be reached both ways.
pub proof fn lemma_defaults_follow_vim_keys(d: Direction)
    ensures
        ({
            let focus = spec_chord_of(Keybind { mods: super_mods(), key: Some(vim_key(d)) });
            let shove = spec_chord_of(Keybind { mods: super_shift(), key: Some(vim_key(d)) });
            &&& spec_default_bindings().contains_key(focus)
            &&& spec_default_bindings()[focus] == ActionView::Focus(d)
            &&& spec_default_bindings().contains_key(shove)
            &&& spec_default_bindings()[shove] == ActionView::MoveWindow(d)
        }),
{
    let (f, m) = match d {
        Direction::Left => (4int, 8int),
        Direction::Right => (5int, 9int),
        Direction::Up => (6int, 10int),
        Direction::Down => (7int, 11int),
    };
    lemma_default_row_bound(f);
    lemma_default_row_bound(m);
}

/// The chord a modifier set and a key make.
pub open spec fn key_chord(mods: Mods, key: KeyCode) -> Chord {
    spec_chord_of(Keybind { mods, key: Some(key) })
}

/// The built-in table's fixed points: Super+Shift+E quits, Super+Return
/// opens a terminal, Super+Q closes the window, and for each of the first
/// five workspaces Super with its digit goes there while Super+Shift with
/// the digit sends the window there and follows it.
pub proof fn lemma_defaults_documented(w: int)
    requires
        0 <= w < 5,
    ensures
        spec_default_bindings()[key_chord(super_shift(), KeyCode::E)] == ActionView::Quit,
        spec_default_bindings()[key_chord(super_mods(), KeyCode::Enter)] == ActionView::Spawn(
            seq!["foot"@],
        ),
        spec_default_bindings()[key_chord(super_mods(), KeyCode::Q)] == ActionView::CloseWindow,
        spec_default_bindings()[key_chord(super_mods(), workspace_key(w))] == ActionView::Workspace(
            WorkspaceRef::Index(w as usize),
        ),
        spec_default_bindings()[key_chord(super_shift(), workspace_key(w))] == (
        ActionView::MoveWindowToWorkspace { target: WorkspaceRef::Index(w as usize), follow: true }),
{
    lemma_default_row_bound(0);
    lemma_default_row_bound(2);
    lemma_default_row_bound(3);
    lemma_default_row_bound(22 + 2 * w);
    lemma_default_row_bound(23 + 2 * w);
    assert((22 + 2 * w - 22) / 2 == w && (22 + 2 * w - 22) % 2 == 0);
    assert((23 + 2 * w - 22) / 2 == w && (23 + 2 * w - 22) % 2 == 1);
}

} // verus!
