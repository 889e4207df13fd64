use crownpositor::input::keyboard::{remap_keycode, vt_switch_target, KeyEvent};
use crownpositor::input::shortcuts::action::Action;
use crownpositor::input::shortcuts::bindings::Bindings;
use crownpositor::input::shortcuts::chord::{keysym, KeyCode, ModMask, KEY_XF86SWITCH_VT_1};
use crownpositor::input::State;

const SUPER: ModMask = ModMask { logo: true, ctrl: false, alt: false, shift: false };
const NONE: ModMask = ModMask { logo: false, ctrl: false, alt: false, shift: false };

fn press(code: u32, sym: u32, mods: ModMask) -> KeyEvent {
    KeyEvent {
        pressed: true,
        raw_code: code,
        modified_syms: vec![sym],
        raw_sym: Some(sym),
        modified_sym: sym,
        mods,
    }
}

fn release(code: u32, sym: u32, mods: ModMask) -> KeyEvent {
    KeyEvent { pressed: false, ..press(code, sym, mods) }
}

#[test]
fn caps_lock_reads_as_escape() {
    assert_eq!(remap_keycode(66), 9);
    assert_eq!(remap_keycode(9), 9);
    assert_eq!(remap_keycode(30), 30);
}

#[test]
fn the_vt_keysyms_name_their_terminal() {
    assert_eq!(vt_switch_target(&vec![0x61, KEY_XF86SWITCH_VT_1 + 2]), Some(3));
    assert_eq!(vt_switch_target(&vec![0x61]), None);
}

#[test]
fn a_bound_press_and_its_release_are_both_kept() {
    let mut state: State<()> = State::new(Bindings::defaults());
    let q = keysym(KeyCode::Q);
    assert_eq!(state.on_keyboard_key(&press(24, q, SUPER), false), Some(Action::CloseWindow));
    assert_eq!(state.on_keyboard_key(&release(24, q, SUPER), false), Some(Action::NoAction));
    assert_eq!(state.on_keyboard_key(&release(24, q, SUPER), false), None, "kept once");
}

#[test]
fn an_unbound_press_goes_to_the_client() {
    let mut state: State<()> = State::new(Bindings::defaults());
    let a = keysym(KeyCode::A);
    assert_eq!(state.on_keyboard_key(&press(38, a, NONE), false), None);
    assert_eq!(state.on_keyboard_key(&release(38, a, NONE), false), None);
}

#[test]
fn inhibited_shortcuts_still_let_the_vt_switch_through() {
    let mut state: State<()> = State::new(Bindings::defaults());
    let q = keysym(KeyCode::Q);
    assert_eq!(state.on_keyboard_key(&press(24, q, SUPER), true), None);
    let vt = KEY_XF86SWITCH_VT_1 + 1;
    assert_eq!(state.on_keyboard_key(&press(68, vt, NONE), true), Some(Action::SwitchVt(2)));
}

#[test]
fn a_modifier_only_chord_fires_on_a_clean_release() {
    let mut state: State<()> = State::new(Bindings::with_custom(&vec![
        crownpositor::input::shortcuts::custom::BindingRow {
            keys: Ok(crownpositor::input::shortcuts::chord::Keybind::new(
                crownpositor::input::shortcuts::chord::Mods::meta(),
                None,
            )),
            action: "spawn launcher".to_owned(),
        },
    ]));
    state.update_mod_chord(SUPER);
    assert_eq!(state.take_mod_chord_action(SUPER), None, "not while it is held");
    assert_eq!(
        state.take_mod_chord_action(NONE),
        Some(Action::Spawn(vec!["launcher".to_owned()]))
    );
    assert_eq!(state.take_mod_chord_action(NONE), None, "disarmed once it fired");
}

#[test]
fn pressing_anything_while_the_modifier_is_held_disqualifies_it() {
    let mut state: State<()> = State::new(Bindings::with_custom(&vec![
        crownpositor::input::shortcuts::custom::BindingRow {
            keys: Ok(crownpositor::input::shortcuts::chord::Keybind::new(
                crownpositor::input::shortcuts::chord::Mods::meta(),
                None,
            )),
            action: "spawn launcher".to_owned(),
        },
    ]));
    state.update_mod_chord(SUPER);
    let q = keysym(KeyCode::Q);
    state.on_keyboard_key(&press(24, q, SUPER), false);
    assert_eq!(state.take_mod_chord_action(NONE), None);
}
