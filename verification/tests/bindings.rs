use crownpositor::input::shortcuts::action::{Action, Direction, WorkspaceRef};
use crownpositor::input::shortcuts::bindings::Bindings;
use crownpositor::input::shortcuts::chord::{Chord, KeyCode, Keybind, ModMask, Mods};
use crownpositor::input::shortcuts::custom::BindingRow;
use crownpositor::input::shortcuts::defaults;

const SUPER: Mods = Mods { meta: true, ctrl: false, alt: false, shift: false };
const SUPER_SHIFT: Mods = Mods { meta: true, ctrl: false, alt: false, shift: true };

fn chord(mods: Mods, key: KeyCode) -> Chord {
    Chord::from_keybind(Keybind::new(mods, Some(key)))
}

fn row(mods: Mods, key: Option<KeyCode>, action: &str) -> BindingRow {
    BindingRow { keys: Ok(Keybind::new(mods, key)), action: action.to_owned() }
}

fn bound(bindings: &Bindings, mods: Mods, key: KeyCode) -> Option<Action> {
    bindings.get(chord(mods, key))
}

/// Every action the built-in table binds, as the table answers for it.
fn bound_defaults(bindings: &Bindings) -> Vec<Action> {
    defaults::bindings()
        .into_iter()
        .filter_map(|(keybind, _)| bindings.get(Chord::from_keybind(keybind)))
        .collect()
}

#[test]
fn the_defaults_cover_every_core_operation() {
    let bindings = Bindings::defaults();
    let actions = bound_defaults(&bindings);
    let has = |predicate: fn(&Action) -> bool| actions.iter().any(predicate);

    assert!(has(|a| matches!(a, Action::Quit)), "no way to quit");
    assert!(has(|a| matches!(a, Action::CloseWindow)));
    assert!(has(|a| matches!(a, Action::Spawn(_))));
    assert!(has(|a| matches!(a, Action::Focus(_))));
    assert!(has(|a| matches!(a, Action::MoveWindow(_))));
    assert!(has(|a| matches!(a, Action::Workspace(_))));
    assert!(has(|a| matches!(a, Action::MoveWindowToWorkspace { .. })));
    assert!(has(|a| matches!(a, Action::ToggleFloating)));
    assert!(has(|a| matches!(a, Action::ToggleFullscreen)));
    assert!(has(|a| matches!(a, Action::ToggleMaximize)));
    assert!(has(|a| matches!(a, Action::CycleLayout)));
    assert!(has(|a| matches!(a, Action::ToggleLayoutMode)));
    assert!(has(|a| matches!(a, Action::ResizeSplit(_))));
    assert!(has(|a| matches!(a, Action::PromoteDemote)));
}

#[test]
fn all_four_focus_directions_are_bound() {
    let bindings = Bindings::defaults();
    let actions = bound_defaults(&bindings);
    for direction in [Direction::Left, Direction::Right, Direction::Up, Direction::Down] {
        assert!(
            actions.iter().any(|a| *a == Action::Focus(direction)),
            "{direction:?} is not bound"
        );
    }
}

#[test]
fn defaults_bind_a_way_out() {
    assert_eq!(
        bound(&Bindings::defaults(), SUPER_SHIFT, KeyCode::E),
        Some(Action::Quit),
        "a fresh install must have a quit binding"
    );
}

/// A digit reaches the workspace it is written on, not the one after it.
#[test]
fn the_workspace_digits_line_up_with_their_index() {
    let bindings = Bindings::defaults();
    assert_eq!(
        bound(&bindings, SUPER, KeyCode::Digit1),
        Some(Action::Workspace(WorkspaceRef::Index(0)))
    );
    assert_eq!(
        bound(&bindings, SUPER_SHIFT, KeyCode::Digit5),
        Some(Action::MoveWindowToWorkspace { target: WorkspaceRef::Index(4), follow: true })
    );
}

/// Two defaults on one chord would let the later row win silently: every
/// row of the table is still what its own chord is bound to.
#[test]
fn no_default_chord_is_bound_twice() {
    let bindings = Bindings::defaults();
    let rows = defaults::bindings();
    for (i, (keybind, action)) in rows.iter().enumerate() {
        assert_eq!(bindings.get(Chord::from_keybind(*keybind)).as_ref(), Some(action));
        for (other, _) in &rows[i + 1..] {
            assert_ne!(Chord::from_keybind(*keybind), Chord::from_keybind(*other));
        }
    }
}

#[test]
fn an_empty_config_leaves_the_defaults_alone() {
    assert_eq!(
        bound(&Bindings::with_custom(&Vec::new()), SUPER, KeyCode::Q),
        Some(Action::CloseWindow)
    );
}

#[test]
fn a_custom_row_adds_without_costing_a_default() {
    let bindings = Bindings::with_custom(&vec![row(SUPER, Some(KeyCode::B), "spawn firefox")]);
    assert_eq!(
        bound(&bindings, SUPER, KeyCode::B),
        Some(Action::Spawn(vec!["firefox".to_owned()]))
    );
    assert_eq!(
        bound(&bindings, SUPER_SHIFT, KeyCode::E),
        Some(Action::Quit),
        "one custom row must not discard the built-in table"
    );
}

#[test]
fn a_custom_row_replaces_the_default_on_the_same_chord() {
    let bindings =
        Bindings::with_custom(&vec![row(SUPER, Some(KeyCode::Enter), "spawn alacritty")]);
    assert_eq!(
        bound(&bindings, SUPER, KeyCode::Enter),
        Some(Action::Spawn(vec!["alacritty".to_owned()]))
    );
}

/// Deleted rather than bound to a no-op, so the key reaches the client.
#[test]
fn binding_none_gives_the_chord_back_to_the_client() {
    let bindings = Bindings::with_custom(&vec![row(SUPER, Some(KeyCode::L), "none")]);
    assert_eq!(bound(&bindings, SUPER, KeyCode::L), None);
    assert_eq!(
        bound(&bindings, SUPER, KeyCode::H),
        Some(Action::Focus(Direction::Left)),
        "unbinding one chord must not touch its neighbours"
    );
}

#[test]
fn a_modifier_only_row_fires_on_its_own_mask() {
    let super_ctrl = Mods { meta: true, ctrl: true, alt: false, shift: false };
    let super_alt = Mods { meta: true, ctrl: false, alt: true, shift: false };
    let bindings = Bindings::with_custom(&vec![row(super_ctrl, None, "spawn crownlauncher")]);
    assert_eq!(
        bindings.lookup_mod_only(ModMask::from_mods(super_ctrl)),
        Some(Action::Spawn(vec!["crownlauncher".to_owned()]))
    );
    assert_eq!(bindings.lookup_mod_only(ModMask::from_mods(super_alt)), None);
}

#[test]
fn a_row_with_no_shortcut_is_ignored() {
    let nothing = Mods { meta: false, ctrl: false, alt: false, shift: false };
    let bindings = Bindings::with_custom(&vec![row(nothing, None, "quit")]);
    assert_eq!(
        bound(&bindings, SUPER_SHIFT, KeyCode::E),
        Some(Action::Quit),
        "an unbound row says nothing about the rest of the table"
    );
    assert_eq!(bindings.lookup_mod_only(ModMask::from_mods(nothing)), None);
}

#[test]
fn the_last_row_on_a_chord_wins() {
    let bindings = Bindings::with_custom(&vec![
        row(SUPER, Some(KeyCode::B), "spawn firefox"),
        row(SUPER, Some(KeyCode::B), "spawn chromium"),
    ]);
    assert_eq!(
        bound(&bindings, SUPER, KeyCode::B),
        Some(Action::Spawn(vec!["chromium".to_owned()]))
    );
}

#[test]
fn lookup_prefers_the_layout_independent_symbol() {
    let bindings = Bindings::defaults();
    let mask = ModMask::from_mods(SUPER);
    let q = crownpositor::input::shortcuts::chord::keysym(KeyCode::Q);
    assert_eq!(bindings.lookup(mask, Some(q), 0x0061), Some(Action::CloseWindow));
    assert_eq!(bindings.lookup(mask, None, q), Some(Action::CloseWindow));
    assert_eq!(bindings.lookup(ModMask::default(), Some(q), q), None);
}

#[test]
fn super_return_spawns_foot() {
    assert_eq!(
        bound(&Bindings::defaults(), SUPER, KeyCode::Enter),
        Some(Action::Spawn(vec!["foot".to_owned()]))
    );
}

#[test]
fn the_built_in_table_has_thirty_two_rows() {
    assert_eq!(defaults::bindings().len(), 32);
    assert_eq!(defaults::DEFAULT_COUNT, 32);
}
