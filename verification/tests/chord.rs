use crownpositor::input::shortcuts::chord::{all_keys, keysym, Chord, KeyCode, Keybind, ModMask, Mods};

/// Two keys sharing a keysym would make one of them unbindable.
#[test]
fn every_key_maps_to_a_distinct_keysym() {
    let keys = all_keys();
    for &key in &keys {
        let clashes = keys.iter().filter(|&&other| keysym(other) == keysym(key));
        assert_eq!(clashes.count(), 1, "{key:?} shares its keysym");
    }
}

#[test]
fn letters_and_named_keys_read_as_their_keysyms() {
    assert_eq!(keysym(KeyCode::Q), 0x0071);
    assert_eq!(keysym(KeyCode::Enter), 0xff0d);
    assert_eq!(keysym(KeyCode::Minus), 0x002d);
    assert_eq!(keysym(KeyCode::LeftBracket), 0x005b);
    assert_eq!(keysym(KeyCode::Period), 0x002e);
}

#[test]
fn a_mask_with_no_key_is_a_modifier_only_chord() {
    let mods = Mods { meta: true, ctrl: true, alt: false, shift: false };
    let chord = Chord::from_keybind(Keybind::new(mods, None));
    assert!(chord.mods.logo);
    assert!(chord.mods.ctrl);
    assert_eq!(chord.key, None);
    assert!(!chord.is_empty());
}

#[test]
fn no_modifiers_and_no_key_bind_nothing() {
    let none = Mods { meta: false, ctrl: false, alt: false, shift: false };
    assert!(Chord::from_keybind(Keybind::new(none, None)).is_empty());
    assert!(ModMask::from_mods(none).is_empty());
}
