use crownpositor::input::shortcuts::action::Action;
use crownpositor::input::shortcuts::chord::{Chord, KeyCode, Keybind, Mods};
use crownpositor::input::shortcuts::custom::{overrides, BindingRow, Override, ParseBindingError};

const SUPER: Mods = Mods { meta: true, ctrl: false, alt: false, shift: false };
const SUPER_SHIFT: Mods = Mods { meta: true, ctrl: false, alt: false, shift: true };

fn row(keys: Result<Keybind, String>, action: &str) -> BindingRow {
    BindingRow { keys, action: action.to_owned() }
}

/// What the config's keybind parser says of `Supper+Q`.
fn misspelt() -> Result<Keybind, String> {
    Err("not a modifier or a key a shortcut may use: Supper".to_owned())
}

#[test]
fn a_row_becomes_a_chord_and_an_action() {
    let keys = Keybind::new(SUPER_SHIFT, Some(KeyCode::B));
    let parsed = Override::try_from_row(&row(Ok(keys), "spawn firefox"))
        .expect("a well-formed row parses");
    assert_eq!(parsed.chord, Chord::from_keybind(keys));
    assert_eq!(parsed.action, Action::Spawn(vec!["firefox".to_owned()]));
}

#[test]
fn errors_say_which_half_of_the_row_is_wrong() {
    let err = Override::try_from_row(&row(misspelt(), "quit")).unwrap_err();
    assert_eq!(
        err.message(),
        "invalid shortcut: not a modifier or a key a shortcut may use: Supper"
    );

    let keys = Keybind::new(SUPER, Some(KeyCode::Q));
    let err = Override::try_from_row(&row(Ok(keys), "frobnicate")).unwrap_err();
    assert!(matches!(err, ParseBindingError::Action(_)));
    assert_eq!(err.message(), "invalid action: unknown action `frobnicate`");
}

#[test]
fn a_bad_row_is_dropped_and_the_rest_survive() {
    let rows = vec![
        row(misspelt(), "quit"),
        row(Ok(Keybind::new(SUPER, Some(KeyCode::Q))), "frobnicate"),
        row(Ok(Keybind::new(SUPER, Some(KeyCode::E))), "quit"),
    ];
    let kept = overrides(&rows);
    assert_eq!(kept.len(), 1);
    assert_eq!(kept[0].action, Action::Quit);
}
