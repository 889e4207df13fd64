//! The chord vocabulary, shared with the config file.
//!
//! A shortcut is written as some modifiers plus at most one key, and is
//! translated here into what the seat reports: a modifier mask and a keysym.

use vstd::prelude::*;

verus! {

/// The modifiers a config row can name.
#[derive(Debug, Clone, Copy, PartialEq, Eq, Structural)]
pub struct Mods {
    pub meta: bool,
    pub ctrl: bool,
    pub alt: bool,
    pub shift: bool,
}

impl Mods {
    /// Just the logo key.
    pub fn meta() -> (m: Mods)
        ensures
            m == (Mods { meta: true, ctrl: false, alt: false, shift: false }),
    {
        Mods { meta: true, ctrl: false, alt: false, shift: false }
    }
}

/// The keys a shortcut may use, beyond its modifiers.
#[derive(Debug, Clone, Copy, PartialEq, Eq, Structural)]
pub enum KeyCode {
    A,
    B,
    C,
    D,
    E,
    F,
    G,
    H,
    I,
    J,
    K,
    L,
    M,
    N,
    O,
    P,
    Q,
    R,
    S,
    T,
    U,
    V,
    W,
    X,
    Y,
    Z,
    Digit0,
    Digit1,
    Digit2,
    Digit3,
    Digit4,
    Digit5,
    Digit6,
    Digit7,
    Digit8,
    Digit9,
    F1,
    F2,
    F3,
    F4,
    F5,
    F6,
    F7,
    F8,
    F9,
    F10,
    F11,
    F12,
    Space,
    Enter,
    Tab,
    Escape,
    Backspace,
    Delete,
    Insert,
    Home,
    End,
    PageUp,
    PageDown,
    CapsLock,
    ArrowUp,
    ArrowDown,
    ArrowLeft,
    ArrowRight,
    Minus,
    Equal,
    LeftBracket,
    RightBracket,
    Backslash,
    Semicolon,
    Quote,
    Backquote,
    Comma,
    Period,
    Slash,
}

/// A shortcut as the config file holds it: modifiers and at most one key.
#[derive(Debug, Clone, Copy, PartialEq, Eq, Structural)]
pub struct Keybind {
    pub mods: Mods,
    pub key: Option<KeyCode>,
}

impl Keybind {
    pub fn new(mods: Mods, key: Option<KeyCode>) -> (k: Keybind)
        ensures
            k.mods == mods,
            k.key == key,
    {
        Keybind { mods, key }
    }
}

/// A keysym, as the keymap reports it.
pub type Keysym = u32;

/// The `a` keysym.
pub const KEY_a: u32 = 0x0061;
/// The `b` keysym.
pub const KEY_b: u32 = 0x0062;
/// The `c` keysym.
pub const KEY_c: u32 = 0x0063;
/// The `d` keysym.
pub const KEY_d: u32 = 0x0064;
/// The `e` keysym.
pub const KEY_e: u32 = 0x0065;
/// The `f` keysym.
pub const KEY_f: u32 = 0x0066;
/// The `g` keysym.
pub const KEY_g: u32 = 0x0067;
/// The `h` keysym.
pub const KEY_h: u32 = 0x0068;
/// The `i` keysym.
pub const KEY_i: u32 = 0x0069;
/// The `j` keysym.
pub const KEY_j: u32 = 0x006a;
/// The `k` keysym.
pub const KEY_k: u32 = 0x006b;
/// The `l` keysym.
pub const KEY_l: u32 = 0x006c;
/// The `m` keysym.
pub const KEY_m: u32 = 0x006d;
/// The `n` keysym.
pub const KEY_n: u32 = 0x006e;
/// The `o` keysym.
pub const KEY_o: u32 = 0x006f;
/// The `p` keysym.
pub const KEY_p: u32 = 0x0070;
/// The `q` keysym.
pub const KEY_q: u32 = 0x0071;
/// The `r` keysym.
pub const KEY_r: u32 = 0x0072;
/// The `s` keysym.
pub const KEY_s: u32 = 0x0073;
/// The `t` keysym.
pub const KEY_t: u32 = 0x0074;
/// The `u` keysym.
pub const KEY_u: u32 = 0x0075;
/// The `v` keysym.
pub const KEY_v: u32 = 0x0076;
/// The `w` keysym.
pub const KEY_w: u32 = 0x0077;
/// The `x` keysym.
pub const KEY_x: u32 = 0x0078;
/// The `y` keysym.
pub const KEY_y: u32 = 0x0079;
/// The `z` keysym.
pub const KEY_z: u32 = 0x007a;
/// The `0` keysym.
pub const KEY_0: u32 = 0x0030;
/// The `1` keysym.
pub const KEY_1: u32 = 0x0031;
/// The `2` keysym.
pub const KEY_2: u32 = 0x0032;
/// The `3` keysym.
pub const KEY_3: u32 = 0x0033;
/// The `4` keysym.
pub const KEY_4: u32 = 0x0034;
/// The `5` keysym.
pub const KEY_5: u32 = 0x0035;
/// The `6` keysym.
pub const KEY_6: u32 = 0x0036;
/// The `7` keysym.
pub const KEY_7: u32 = 0x0037;
/// The `8` keysym.
pub const KEY_8: u32 = 0x0038;
/// The `9` keysym.
pub const KEY_9: u32 = 0x0039;
/// The `F1` keysym.
pub const KEY_F1: u32 = 0xffbe;
/// The `F2` keysym.
pub const KEY_F2: u32 = 0xffbf;
/// The `F3` keysym.
pub const KEY_F3: u32 = 0xffc0;
/// The `F4` keysym.
pub const KEY_F4: u32 = 0xffc1;
/// The `F5` keysym.
pub const KEY_F5: u32 = 0xffc2;
/// The `F6` keysym.
pub const KEY_F6: u32 = 0xffc3;
/// The `F7` keysym.
pub const KEY_F7: u32 = 0xffc4;
/// The `F8` keysym.
pub const KEY_F8: u32 = 0xffc5;
/// The `F9` keysym.
pub const KEY_F9: u32 = 0xffc6;
/// The `F10` keysym.
pub const KEY_F10: u32 = 0xffc7;
/// The `F11` keysym.
pub const KEY_F11: u32 = 0xffc8;
/// The `F12` keysym.
pub const KEY_F12: u32 = 0xffc9;
/// The `space` keysym.
pub const KEY_space: u32 = 0x0020;
/// The `Return` keysym.
pub const KEY_Return: u32 = 0xff0d;
/// The `Tab` keysym.
pub const KEY_Tab: u32 = 0xff09;
/// The `Escape` keysym.
pub const KEY_Escape: u32 = 0xff1b;
/// The `BackSpace` keysym.
pub const KEY_BackSpace: u32 = 0xff08;
/// The `Delete` keysym.
pub const KEY_Delete: u32 = 0xffff;
/// The `Insert` keysym.
pub const KEY_Insert: u32 = 0xff63;
/// The `Home` keysym.
pub const KEY_Home: u32 = 0xff50;
/// The `End` keysym.
pub const KEY_End: u32 = 0xff57;
/// The `Prior` keysym.
pub const KEY_Prior: u32 = 0xff55;
/// The `Next` keysym.
pub const KEY_Next: u32 = 0xff56;
/// The `Caps_Lock` keysym.
pub const KEY_Caps_Lock: u32 = 0xffe5;
/// The `Up` keysym.
pub const KEY_Up: u32 = 0xff52;
/// The `Down` keysym.
pub const KEY_Down: u32 = 0xff54;
/// The `Left` keysym.
pub const KEY_Left: u32 = 0xff51;
/// The `Right` keysym.
pub const KEY_Right: u32 = 0xff53;
/// The `minus` keysym.
pub const KEY_minus: u32 = 0x002d;
/// The `equal` keysym.
pub const KEY_equal: u32 = 0x003d;
/// The `bracketleft` keysym.
pub const KEY_bracketleft: u32 = 0x005b;
/// The `bracketright` keysym.
pub const KEY_bracketright: u32 = 0x005d;
/// The `backslash` keysym.
pub const KEY_backslash: u32 = 0x005c;
/// The `semicolon` keysym.
pub const KEY_semicolon: u32 = 0x003b;
/// The `apostrophe` keysym.
pub const KEY_apostrophe: u32 = 0x0027;
/// The `grave` keysym.
pub const KEY_grave: u32 = 0x0060;
/// The `comma` keysym.
pub const KEY_comma: u32 = 0x002c;
/// The `period` keysym.
pub const KEY_period: u32 = 0x002e;
/// The `slash` keysym.
pub const KEY_slash: u32 = 0x002f;

/// The first keysym of the `XF86Switch_VT_n` run.
pub const KEY_XF86SWITCH_VT_1: u32 = 0x1008fe01;
/// The last keysym of the `XF86Switch_VT_n` run.
pub const KEY_XF86SWITCH_VT_12: u32 = 0x1008fe0c;

/// The four modifiers a shortcut may name.
///
/// `caps_lock`, `num_lock` and `iso_level3/5_shift` are excluded: including
/// them breaks Super+Q with CapsLock on, and every Alt binding on an AltGr
/// layout.
#[derive(Debug, Clone, Copy, PartialEq, Eq, Hash, Default, Structural)]
pub struct ModMask {
    pub logo: bool,
    pub ctrl: bool,
    pub alt: bool,
    pub shift: bool,
}

impl ModMask {
    pub fn is_empty(self) -> (b: bool)
        ensures
            b == (!self.logo && !self.ctrl && !self.alt && !self.shift),
    {
        !self.logo && !self.ctrl && !self.alt && !self.shift
    }

    /// The mask a config row's modifiers name: the config's `meta` is the
    /// logo key.
    pub fn from_mods(mods: Mods) -> (m: ModMask)
        ensures
            m == spec_mask_of(mods),
    {
        ModMask { logo: mods.meta, ctrl: mods.ctrl, alt: mods.alt, shift: mods.shift }
    }
}

pub open spec fn spec_mask_of(mods: Mods) -> ModMask {
    ModMask { logo: mods.meta, ctrl: mods.ctrl, alt: mods.alt, shift: mods.shift }
}

impl vstd::std_specs::convert::FromSpecImpl<Mods> for ModMask {
    open spec fn obeys_from_spec() -> bool {
        true
    }

    open spec fn from_spec(v: Mods) -> ModMask {
        spec_mask_of(v)
    }
}

impl From<Mods> for ModMask {
    fn from(mods: Mods) -> (m: ModMask) {
        ModMask::from_mods(mods)
    }
}

/// A chord: some modifiers plus at most one ordinary key.
#[derive(Debug, Clone, Copy, PartialEq, Eq, Hash, Structural)]
pub struct Chord {
    pub mods: ModMask,
    /// `None` for a modifier-only chord such as `Super`, which fires on
    /// release rather than press.
    pub key: Option<Keysym>,
}

impl Chord {
    /// Binds nothing — what `keys: "None"` reads as.
    pub fn is_empty(self) -> (b: bool)
        ensures
            b == (!self.mods.logo && !self.mods.ctrl && !self.mods.alt && !self.mods.shift
                && self.key is None),
    {
        self.mods.is_empty() && self.key.is_none()
    }

    /// The chord a config row's shortcut reads as.
    pub fn from_keybind(bind: Keybind) -> (c: Chord)
        ensures
            c == spec_chord_of(bind),
    {
        Chord {
            mods: ModMask::from_mods(bind.mods),
            key: match bind.key {
                Some(k) => Some(keysym(k)),
                None => None,
            },
        }
    }
}

pub open spec fn spec_chord_of(bind: Keybind) -> Chord {
    Chord {
        mods: spec_mask_of(bind.mods),
        key: match bind.key {
            Some(k) => Some(spec_keysym(k)),
            None => None,
        },
    }
}

impl vstd::std_specs::convert::FromSpecImpl<Keybind> for Chord {
    open spec fn obeys_from_spec() -> bool {
        true
    }

    open spec fn from_spec(v: Keybind) -> Chord {
        spec_chord_of(v)
    }
}

impl From<Keybind> for Chord {
    fn from(bind: Keybind) -> (c: Chord) {
        Chord::from_keybind(bind)
    }
}

/// The keysym a config key names.
///
/// Shift lives in [`ModMask`] rather than in the keysym, so a letter is its
/// lowercase symbol: `Super+Shift+Q` is `{shift}` plus `q`, which is what the
/// keymap reports for the unmodified key.
pub open spec fn spec_keysym(key: KeyCode) -> Keysym {
    match key {
        KeyCode::A => KEY_a,
        KeyCode::B => KEY_b,
        KeyCode::C => KEY_c,
        KeyCode::D => KEY_d,
        KeyCode::E => KEY_e,
        KeyCode::F => KEY_f,
        KeyCode::G => KEY_g,
        KeyCode::H => KEY_h,
        KeyCode::I => KEY_i,
        KeyCode::J => KEY_j,
        KeyCode::K => KEY_k,
        KeyCode::L => KEY_l,
        KeyCode::M => KEY_m,
        KeyCode::N => KEY_n,
        KeyCode::O => KEY_o,
        KeyCode::P => KEY_p,
        KeyCode::Q => KEY_q,
        KeyCode::R => KEY_r,
        KeyCode::S => KEY_s,
        KeyCode::T => KEY_t,
        KeyCode::U => KEY_u,
        KeyCode::V => KEY_v,
        KeyCode::W => KEY_w,
        KeyCode::X => KEY_x,
        KeyCode::Y => KEY_y,
        KeyCode::Z => KEY_z,
        KeyCode::Digit0 => KEY_0,
        KeyCode::Digit1 => KEY_1,
        KeyCode::Digit2 => KEY_2,
        KeyCode::Digit3 => KEY_3,
        KeyCode::Digit4 => KEY_4,
        KeyCode::Digit5 => KEY_5,
        KeyCode::Digit6 => KEY_6,
        KeyCode::Digit7 => KEY_7,
        KeyCode::Digit8 => KEY_8,
        KeyCode::Digit9 => KEY_9,
        KeyCode::F1 => KEY_F1,
        KeyCode::F2 => KEY_F2,
        KeyCode::F3 => KEY_F3,
        KeyCode::F4 => KEY_F4,
        KeyCode::F5 => KEY_F5,
        KeyCode::F6 => KEY_F6,
        KeyCode::F7 => KEY_F7,
        KeyCode::F8 => KEY_F8,
        KeyCode::F9 => KEY_F9,
        KeyCode::F10 => KEY_F10,
        KeyCode::F11 => KEY_F11,
        KeyCode::F12 => KEY_F12,
        KeyCode::Space => KEY_space,
        KeyCode::Enter => KEY_Return,
        KeyCode::Tab => KEY_Tab,
        KeyCode::Escape => KEY_Escape,
        KeyCode::Backspace => KEY_BackSpace,
        KeyCode::Delete => KEY_Delete,
        KeyCode::Insert => KEY_Insert,
        KeyCode::Home => KEY_Home,
        KeyCode::End => KEY_End,
        KeyCode::PageUp => KEY_Prior,
        KeyCode::PageDown => KEY_Next,
        KeyCode::CapsLock => KEY_Caps_Lock,
        KeyCode::ArrowUp => KEY_Up,
        KeyCode::ArrowDown => KEY_Down,
        KeyCode::ArrowLeft => KEY_Left,
        KeyCode::ArrowRight => KEY_Right,
        KeyCode::Minus => KEY_minus,
        KeyCode::Equal => KEY_equal,
        KeyCode::LeftBracket => KEY_bracketleft,
        KeyCode::RightBracket => KEY_bracketright,
        KeyCode::Backslash => KEY_backslash,
        KeyCode::Semicolon => KEY_semicolon,
        KeyCode::Quote => KEY_apostrophe,
        KeyCode::Backquote => KEY_grave,
        KeyCode::Comma => KEY_comma,
        KeyCode::Period => KEY_period,
        KeyCode::Slash => KEY_slash,
    }
}

/// The key whose keysym `sym` is, if any.
pub open spec fn spec_key_of(sym: Keysym) -> Option<KeyCode> {
    if sym == KEY_a {
        Some(KeyCode::A)
    } else if sym == KEY_b {
        Some(KeyCode::B)
    } else if sym == KEY_c {
        Some(KeyCode::C)
    } else if sym == KEY_d {
        Some(KeyCode::D)
    } else if sym == KEY_e {
        Some(KeyCode::E)
    } else if sym == KEY_f {
        Some(KeyCode::F)
    } else if sym == KEY_g {
        Some(KeyCode::G)
    } else if sym == KEY_h {
        Some(KeyCode::H)
    } else if sym == KEY_i {
        Some(KeyCode::I)
    } else if sym == KEY_j {
        Some(KeyCode::J)
    } else if sym == KEY_k {
        Some(KeyCode::K)
    } else if sym == KEY_l {
        Some(KeyCode::L)
    } else if sym == KEY_m {
        Some(KeyCode::M)
    } else if sym == KEY_n {
        Some(KeyCode::N)
    } else if sym == KEY_o {
        Some(KeyCode::O)
    } else if sym == KEY_p {
        Some(KeyCode::P)
    } else if sym == KEY_q {
        Some(KeyCode::Q)
    } else if sym == KEY_r {
        Some(KeyCode::R)
    } else if sym == KEY_s {
        Some(KeyCode::S)
    } else if sym == KEY_t {
        Some(KeyCode::T)
    } else if sym == KEY_u {
        Some(KeyCode::U)
    } else if sym == KEY_v {
        Some(KeyCode::V)
    } else if sym == KEY_w {
        Some(KeyCode::W)
    } else if sym == KEY_x {
        Some(KeyCode::X)
    } else if sym == KEY_y {
        Some(KeyCode::Y)
    } else if sym == KEY_z {
        Some(KeyCode::Z)
    } else if sym == KEY_0 {
        Some(KeyCode::Digit0)
    } else if sym == KEY_1 {
        Some(KeyCode::Digit1)
    } else if sym == KEY_2 {
        Some(KeyCode::Digit2)
    } else if sym == KEY_3 {
        Some(KeyCode::Digit3)
    } else if sym == KEY_4 {
        Some(KeyCode::Digit4)
    } else if sym == KEY_5 {
        Some(KeyCode::Digit5)
    } else if sym == KEY_6 {
        Some(KeyCode::Digit6)
    } else if sym == KEY_7 {
        Some(KeyCode::Digit7)
    } else if sym == KEY_8 {
        Some(KeyCode::Digit8)
    } else if sym == KEY_9 {
        Some(KeyCode::Digit9)
    } else if sym == KEY_F1 {
        Some(KeyCode::F1)
    } else if sym == KEY_F2 {
        Some(KeyCode::F2)
    } else if sym == KEY_F3 {
        Some(KeyCode::F3)
    } else if sym == KEY_F4 {
        Some(KeyCode::F4)
    } else if sym == KEY_F5 {
        Some(KeyCode::F5)
    } else if sym == KEY_F6 {
        Some(KeyCode::F6)
    } else if sym == KEY_F7 {
        Some(KeyCode::F7)
    } else if sym == KEY_F8 {
        Some(KeyCode::F8)
    } else if sym == KEY_F9 {
        Some(KeyCode::F9)
    } else if sym == KEY_F10 {
        Some(KeyCode::F10)
    } else if sym == KEY_F11 {
        Some(KeyCode::F11)
    } else if sym == KEY_F12 {
        Some(KeyCode::F12)
    } else if sym == KEY_space {
        Some(KeyCode::Space)
    } else if sym == KEY_Return {
        Some(KeyCode::Enter)
    } else if sym == KEY_Tab {
        Some(KeyCode::Tab)
    } else if sym == KEY_Escape {
        Some(KeyCode::Escape)
    } else if sym == KEY_BackSpace {
        Some(KeyCode::Backspace)
    } else if sym == KEY_Delete {
        Some(KeyCode::Delete)
    } else if sym == KEY_Insert {
        Some(KeyCode::Insert)
    } else if sym == KEY_Home {
        Some(KeyCode::Home)
    } else if sym == KEY_End {
        Some(KeyCode::End)
    } else if sym == KEY_Prior {
        Some(KeyCode::PageUp)
    } else if sym == KEY_Next {
        Some(KeyCode::PageDown)
    } else if sym == KEY_Caps_Lock {
        Some(KeyCode::CapsLock)
    } else if sym == KEY_Up {
        Some(KeyCode::ArrowUp)
    } else if sym == KEY_Down {
        Some(KeyCode::ArrowDown)
    } else if sym == KEY_Left {
        Some(KeyCode::ArrowLeft)
    } else if sym == KEY_Right {
        Some(KeyCode::ArrowRight)
    } else if sym == KEY_minus {
        Some(KeyCode::Minus)
    } else if sym == KEY_equal {
        Some(KeyCode::Equal)
    } else if sym == KEY_bracketleft {
        Some(KeyCode::LeftBracket)
    } else if sym == KEY_bracketright {
        Some(KeyCode::RightBracket)
    } else if sym == KEY_backslash {
        Some(KeyCode::Backslash)
    } else if sym == KEY_semicolon {
        Some(KeyCode::Semicolon)
    } else if sym == KEY_apostrophe {
        Some(KeyCode::Quote)
    } else if sym == KEY_grave {
        Some(KeyCode::Backquote)
    } else if sym == KEY_comma {
        Some(KeyCode::Comma)
    } else if sym == KEY_period {
        Some(KeyCode::Period)
    } else if sym == KEY_slash {
        Some(KeyCode::Slash)
    } else {
        None
    }
}

/// The keysym a config key names.
pub fn keysym(key: KeyCode) -> (sym: Keysym)
    ensures
        sym == spec_keysym(key),
{
    match key {
        KeyCode::A => KEY_a,
        KeyCode::B => KEY_b,
        KeyCode::C => KEY_c,
        KeyCode::D => KEY_d,
        KeyCode::E => KEY_e,
        KeyCode::F => KEY_f,
        KeyCode::G => KEY_g,
        KeyCode::H => KEY_h,
        KeyCode::I => KEY_i,
        KeyCode::J => KEY_j,
        KeyCode::K => KEY_k,
        KeyCode::L => KEY_l,
        KeyCode::M => KEY_m,
        KeyCode::N => KEY_n,
        KeyCode::O => KEY_o,
        KeyCode::P => KEY_p,
        KeyCode::Q => KEY_q,
        KeyCode::R => KEY_r,
        KeyCode::S => KEY_s,
        KeyCode::T => KEY_t,
        KeyCode::U => KEY_u,
        KeyCode::V => KEY_v,
        KeyCode::W => KEY_w,
        KeyCode::X => KEY_x,
        KeyCode::Y => KEY_y,
        KeyCode::Z => KEY_z,
        KeyCode::Digit0 => KEY_0,
        KeyCode::Digit1 => KEY_1,
        KeyCode::Digit2 => KEY_2,
        KeyCode::Digit3 => KEY_3,
        KeyCode::Digit4 => KEY_4,
        KeyCode::Digit5 => KEY_5,
        KeyCode::Digit6 => KEY_6,
        KeyCode::Digit7 => KEY_7,
        KeyCode::Digit8 => KEY_8,
        KeyCode::Digit9 => KEY_9,
        KeyCode::F1 => KEY_F1,
        KeyCode::F2 => KEY_F2,
        KeyCode::F3 => KEY_F3,
        KeyCode::F4 => KEY_F4,
        KeyCode::F5 => KEY_F5,
        KeyCode::F6 => KEY_F6,
        KeyCode::F7 => KEY_F7,
        KeyCode::F8 => KEY_F8,
        KeyCode::F9 => KEY_F9,
        KeyCode::F10 => KEY_F10,
        KeyCode::F11 => KEY_F11,
        KeyCode::F12 => KEY_F12,
        KeyCode::Space => KEY_space,
        KeyCode::Enter => KEY_Return,
        KeyCode::Tab => KEY_Tab,
        KeyCode::Escape => KEY_Escape,
        KeyCode::Backspace => KEY_BackSpace,
        KeyCode::Delete => KEY_Delete,
        KeyCode::Insert => KEY_Insert,
        KeyCode::Home => KEY_Home,
        KeyCode::End => KEY_End,
        KeyCode::PageUp => KEY_Prior,
        KeyCode::PageDown => KEY_Next,
        KeyCode::CapsLock => KEY_Caps_Lock,
        KeyCode::ArrowUp => KEY_Up,
        KeyCode::ArrowDown => KEY_Down,
        KeyCode::ArrowLeft => KEY_Left,
        KeyCode::ArrowRight => KEY_Right,
        KeyCode::Minus => KEY_minus,
        KeyCode::Equal => KEY_equal,
        KeyCode::LeftBracket => KEY_bracketleft,
        KeyCode::RightBracket => KEY_bracketright,
        KeyCode::Backslash => KEY_backslash,
        KeyCode::Semicolon => KEY_semicolon,
        KeyCode::Quote => KEY_apostrophe,
        KeyCode::Backquote => KEY_grave,
        KeyCode::Comma => KEY_comma,
        KeyCode::Period => KEY_period,
        KeyCode::Slash => KEY_slash,
    }
}

/// How many keys a shortcut may use.
pub const KEY_COUNT: usize = 75;

/// Each key's place in [`all_keys`].
pub open spec fn key_index(k: KeyCode) -> int {
    match k {
        KeyCode::A => 0,
        KeyCode::B => 1,
        KeyCode::C => 2,
        KeyCode::D => 3,
        KeyCode::E => 4,
        KeyCode::F => 5,
        KeyCode::G => 6,
        KeyCode::H => 7,
        KeyCode::I => 8,
        KeyCode::J => 9,
        KeyCode::K => 10,
        KeyCode::L => 11,
        KeyCode::M => 12,
        KeyCode::N => 13,
        KeyCode::O => 14,
        KeyCode::P => 15,
        KeyCode::Q => 16,
        KeyCode::R => 17,
        KeyCode::S => 18,
        KeyCode::T => 19,
        KeyCode::U => 20,
        KeyCode::V => 21,
        KeyCode::W => 22,
        KeyCode::X => 23,
        KeyCode::Y => 24,
        KeyCode::Z => 25,
        KeyCode::Digit0 => 26,
        KeyCode::Digit1 => 27,
        KeyCode::Digit2 => 28,
        KeyCode::Digit3 => 29,
        KeyCode::Digit4 => 30,
        KeyCode::Digit5 => 31,
        KeyCode::Digit6 => 32,
        KeyCode::Digit7 => 33,
        KeyCode::Digit8 => 34,
        KeyCode::Digit9 => 35,
        KeyCode::F1 => 36,
        KeyCode::F2 => 37,
        KeyCode::F3 => 38,
        KeyCode::F4 => 39,
        KeyCode::F5 => 40,
        KeyCode::F6 => 41,
        KeyCode::F7 => 42,
        KeyCode::F8 => 43,
        KeyCode::F9 => 44,
        KeyCode::F10 => 45,
        KeyCode::F11 => 46,
        KeyCode::F12 => 47,
        KeyCode::Space => 48,
        KeyCode::Enter => 49,
        KeyCode::Tab => 50,
        KeyCode::Escape => 51,
        KeyCode::Backspace => 52,
        KeyCode::Delete => 53,
        KeyCode::Insert => 54,
        KeyCode::Home => 55,
        KeyCode::End => 56,
        KeyCode::PageUp => 57,
        KeyCode::PageDown => 58,
        KeyCode::CapsLock => 59,
        KeyCode::ArrowUp => 60,
        KeyCode::ArrowDown => 61,
        KeyCode::ArrowLeft => 62,
        KeyCode::ArrowRight => 63,
        KeyCode::Minus => 64,
        KeyCode::Equal => 65,
        KeyCode::LeftBracket => 66,
        KeyCode::RightBracket => 67,
        KeyCode::Backslash => 68,
        KeyCode::Semicolon => 69,
        KeyCode::Quote => 70,
        KeyCode::Backquote => 71,
        KeyCode::Comma => 72,
        KeyCode::Period => 73,
        KeyCode::Slash => 74,
    }
}

/// The key in place `i` of [`all_keys`].
pub open spec fn spec_key_at(i: int) -> KeyCode {
    if i == 0 {
        KeyCode::A
    } else if i == 1 {
        KeyCode::B
    } else if i == 2 {
        KeyCode::C
    } else if i == 3 {
        KeyCode::D
    } else if i == 4 {
        KeyCode::E
    } else if i == 5 {
        KeyCode::F
    } else if i == 6 {
        KeyCode::G
    } else if i == 7 {
        KeyCode::H
    } else if i == 8 {
        KeyCode::I
    } else if i == 9 {
        KeyCode::J
    } else if i == 10 {
        KeyCode::K
    } else if i == 11 {
        KeyCode::L
    } else if i == 12 {
        KeyCode::M
    } else if i == 13 {
        KeyCode::N
    } else if i == 14 {
        KeyCode::O
    } else if i == 15 {
        KeyCode::P
    } else if i == 16 {
        KeyCode::Q
    } else if i == 17 {
        KeyCode::R
    } else if i == 18 {
        KeyCode::S
    } else if i == 19 {
        KeyCode::T
    } else if i == 20 {
        KeyCode::U
    } else if i == 21 {
        KeyCode::V
    } else if i == 22 {
        KeyCode::W
    } else if i == 23 {
        KeyCode::X
    } else if i == 24 {
        KeyCode::Y
    } else if i == 25 {
        KeyCode::Z
    } else if i == 26 {
        KeyCode::Digit0
    } else if i == 27 {
        KeyCode::Digit1
    } else if i == 28 {
        KeyCode::Digit2
    } else if i == 29 {
        KeyCode::Digit3
    } else if i == 30 {
        KeyCode::Digit4
    } else if i == 31 {
        KeyCode::Digit5
    } else if i == 32 {
        KeyCode::Digit6
    } else if i == 33 {
        KeyCode::Digit7
    } else if i == 34 {
        KeyCode::Digit8
    } else if i == 35 {
        KeyCode::Digit9
    } else if i == 36 {
        KeyCode::F1
    } else if i == 37 {
        KeyCode::F2
    } else if i == 38 {
        KeyCode::F3
    } else if i == 39 {
        KeyCode::F4
    } else if i == 40 {
        KeyCode::F5
    } else if i == 41 {
        KeyCode::F6
    } else if i == 42 {
        KeyCode::F7
    } else if i == 43 {
        KeyCode::F8
    } else if i == 44 {
        KeyCode::F9
    } else if i == 45 {
        KeyCode::F10
    } else if i == 46 {
        KeyCode::F11
    } else if i == 47 {
        KeyCode::F12
    } else if i == 48 {
        KeyCode::Space
    } else if i == 49 {
        KeyCode::Enter
    } else if i == 50 {
        KeyCode::Tab
    } else if i == 51 {
        KeyCode::Escape
    } else if i == 52 {
        KeyCode::Backspace
    } else if i == 53 {
        KeyCode::Delete
    } else if i == 54 {
        KeyCode::Insert
    } else if i == 55 {
        KeyCode::Home
    } else if i == 56 {
        KeyCode::End
    } else if i == 57 {
        KeyCode::PageUp
    } else if i == 58 {
        KeyCode::PageDown
    } else if i == 59 {
        KeyCode::CapsLock
    } else if i == 60 {
        KeyCode::ArrowUp
    } else if i == 61 {
        KeyCode::ArrowDown
    } else if i == 62 {
        KeyCode::ArrowLeft
    } else if i == 63 {
        KeyCode::ArrowRight
    } else if i == 64 {
        KeyCode::Minus
    } else if i == 65 {
        KeyCode::Equal
    } else if i == 66 {
        KeyCode::LeftBracket
    } else if i == 67 {
        KeyCode::RightBracket
    } else if i == 68 {
        KeyCode::Backslash
    } else if i == 69 {
        KeyCode::Semicolon
    } else if i == 70 {
        KeyCode::Quote
    } else if i == 71 {
        KeyCode::Backquote
    } else if i == 72 {
        KeyCode::Comma
    } else if i == 73 {
        KeyCode::Period
    } else if i == 74 {
        KeyCode::Slash
    } else {
        KeyCode::Slash
    }
}

proof fn lemma_key_index(k: KeyCode)
    ensures
        0 <= key_index(k) < KEY_COUNT,
        spec_key_at(key_index(k)) == k,
{
}

fn key_at(i: usize) -> (k: KeyCode)
    requires
        i < KEY_COUNT,
    ensures
        k == spec_key_at(i as int),
{
    if i == 0 {
        KeyCode::A
    } else if i == 1 {
        KeyCode::B
    } else if i == 2 {
        KeyCode::C
    } else if i == 3 {
        KeyCode::D
    } else if i == 4 {
        KeyCode::E
    } else if i == 5 {
        KeyCode::F
    } else if i == 6 {
        KeyCode::G
    } else if i == 7 {
        KeyCode::H
    } else if i == 8 {
        KeyCode::I
    } else if i == 9 {
        KeyCode::J
    } else if i == 10 {
        KeyCode::K
    } else if i == 11 {
        KeyCode::L
    } else if i == 12 {
        KeyCode::M
    } else if i == 13 {
        KeyCode::N
    } else if i == 14 {
        KeyCode::O
    } else if i == 15 {
        KeyCode::P
    } else if i == 16 {
        KeyCode::Q
    } else if i == 17 {
        KeyCode::R
    } else if i == 18 {
        KeyCode::S
    } else if i == 19 {
        KeyCode::T
    } else if i == 20 {
        KeyCode::U
    } else if i == 21 {
        KeyCode::V
    } else if i == 22 {
        KeyCode::W
    } else if i == 23 {
        KeyCode::X
    } else if i == 24 {
        KeyCode::Y
    } else if i == 25 {
        KeyCode::Z
    } else if i == 26 {
        KeyCode::Digit0
    } else if i == 27 {
        KeyCode::Digit1
    } else if i == 28 {
        KeyCode::Digit2
    } else if i == 29 {
        KeyCode::Digit3
    } else if i == 30 {
        KeyCode::Digit4
    } else if i == 31 {
        KeyCode::Digit5
    } else if i == 32 {
        KeyCode::Digit6
    } else if i == 33 {
        KeyCode::Digit7
    } else if i == 34 {
        KeyCode::Digit8
    } else if i == 35 {
        KeyCode::Digit9
    } else if i == 36 {
        KeyCode::F1
    } else if i == 37 {
        KeyCode::F2
    } else if i == 38 {
        KeyCode::F3
    } else if i == 39 {
        KeyCode::F4
    } else if i == 40 {
        KeyCode::F5
    } else if i == 41 {
        KeyCode::F6
    } else if i == 42 {
        KeyCode::F7
    } else if i == 43 {
        KeyCode::F8
    } else if i == 44 {
        KeyCode::F9
    } else if i == 45 {
        KeyCode::F10
    } else if i == 46 {
        KeyCode::F11
    } else if i == 47 {
        KeyCode::F12
    } else if i == 48 {
        KeyCode::Space
    } else if i == 49 {
        KeyCode::Enter
    } else if i == 50 {
        KeyCode::Tab
    } else if i == 51 {
        KeyCode::Escape
    } else if i == 52 {
        KeyCode::Backspace
    } else if i == 53 {
        KeyCode::Delete
    } else if i == 54 {
        KeyCode::Insert
    } else if i == 55 {
        KeyCode::Home
    } else if i == 56 {
        KeyCode::End
    } else if i == 57 {
        KeyCode::PageUp
    } else if i == 58 {
        KeyCode::PageDown
    } else if i == 59 {
        KeyCode::CapsLock
    } else if i == 60 {
        KeyCode::ArrowUp
    } else if i == 61 {
        KeyCode::ArrowDown
    } else if i == 62 {
        KeyCode::ArrowLeft
    } else if i == 63 {
        KeyCode::ArrowRight
    } else if i == 64 {
        KeyCode::Minus
    } else if i == 65 {
        KeyCode::Equal
    } else if i == 66 {
        KeyCode::LeftBracket
    } else if i == 67 {
        KeyCode::RightBracket
    } else if i == 68 {
        KeyCode::Backslash
    } else if i == 69 {
        KeyCode::Semicolon
    } else if i == 70 {
        KeyCode::Quote
    } else if i == 71 {
        KeyCode::Backquote
    } else if i == 72 {
        KeyCode::Comma
    } else if i == 73 {
        KeyCode::Period
    } else if i == 74 {
        KeyCode::Slash
    } else {
        KeyCode::Slash
    }
}

/// Every key, each once.
pub fn all_keys() -> (v: Vec<KeyCode>)
    ensures
        v.len() == KEY_COUNT,
        forall|i: int| 0 <= i < KEY_COUNT ==> #[trigger] v@[i] == spec_key_at(i),
        forall|k: KeyCode| #[trigger] v@[key_index(k)] == k,
{
    let mut v: Vec<KeyCode> = Vec::new();
    let mut i: usize = 0;
    while i < KEY_COUNT
        invariant
            i <= KEY_COUNT,
            v.len() == i,
            forall|j: int| 0 <= j < i ==> #[trigger] v@[j] == spec_key_at(j),
        decreases KEY_COUNT - i,
    {
        v.push(key_at(i));
        i = i + 1;
    }
    assert forall|k: KeyCode| #[trigger] v@[key_index(k)] == k by {
        lemma_key_index(k);
    }
    v
}

/// Reading a key's keysym back gives the key.
pub proof fn lemma_keysym_inverse(key: KeyCode)
    ensures
        spec_key_of(spec_keysym(key)) == Some(key),
{
}

/// No two keys share a keysym: a clash would leave one of them unbindable.
pub proof fn lemma_keysym_injective(a: KeyCode, b: KeyCode)
    ensures
        spec_keysym(a) == spec_keysym(b) ==> a == b,
{
    lemma_keysym_inverse(a);
    lemma_keysym_inverse(b);
}

} // verus!
