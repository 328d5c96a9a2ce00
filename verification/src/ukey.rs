//! The event-code taxonomy: a pure, total, stable mapping from raw input
//! identifiers (physical keys and pointer buttons) into a flat 16-bit code
//! space partitioned by a 4-bit category prefix in the high nibble.
//!
//! Category prefixes:
//!   0x0 alphabetic keys (ASCII of the uppercase letter)
//!   0x1 digit keys (ASCII of the digit character)
//!   0x2 numeric-keypad keys (sequential indices)
//!   0x3 symbol keys (ASCII of the symbol)
//!   0x4 pointer buttons (1 left, 2 right, 3 middle, else the raw id)
//!   0xC whitespace/control-width keys (ASCII)
//!   0xD arrow keys (sequential indices)
//!   0xE modifier/special keys (sequential indices)
//!   0xF function keys (1..=12)
//! The code 0x0000 is the "unknown" sentinel, produced exactly for key
//! identifiers outside the recognized set.
use vstd::prelude::*;

verus! {

/// A raw physical-key identifier, as reported by the platform input hook.
/// The variant set mirrors the identifiers a capture backend can deliver;
/// `Unknown` carries the platform's raw numeric id for keys it has no name
/// for. Identifiers the taxonomy does not recognize translate to the
/// sentinel code 0x0000.
#[derive(Clone, Copy, PartialEq, Eq, Structural, Debug)]
pub enum Key {
    Alt,
    AltGr,
    Backspace,
    CapsLock,
    ControlLeft,
    ControlRight,
    Delete,
    DownArrow,
    End,
    Escape,
    F1,
    F10,
    F11,
    F12,
    F2,
    F3,
    F4,
    F5,
    F6,
    F7,
    F8,
    F9,
    Home,
    LeftArrow,
    MetaLeft,
    MetaRight,
    PageDown,
    PageUp,
    Return,
    RightArrow,
    ShiftLeft,
    ShiftRight,
    Space,
    Tab,
    UpArrow,
    PrintScreen,
    ScrollLock,
    Pause,
    NumLock,
    BackQuote,
    Num1,
    Num2,
    Num3,
    Num4,
    Num5,
    Num6,
    Num7,
    Num8,
    Num9,
    Num0,
    Minus,
    Equal,
    KeyQ,
    KeyW,
    KeyE,
    KeyR,
    KeyT,
    KeyY,
    KeyU,
    KeyI,
    KeyO,
    KeyP,
    LeftBracket,
    RightBracket,
    KeyA,
    KeyS,
    KeyD,
    KeyF,
    KeyG,
    KeyH,
    KeyJ,
    KeyK,
    KeyL,
    SemiColon,
    Quote,
    BackSlash,
    IntlBackslash,
    KeyZ,
    KeyX,
    KeyC,
    KeyV,
    KeyB,
    KeyN,
    KeyM,
    Comma,
    Dot,
    Slash,
    Insert,
    KpReturn,
    KpMinus,
    KpPlus,
    KpMultiply,
    KpDivide,
    Kp0,
    Kp1,
    Kp2,
    Kp3,
    Kp4,
    Kp5,
    Kp6,
    Kp7,
    Kp8,
    Kp9,
    KpDelete,
    Function,
    Unknown(u32),
}

/// A raw pointer-button identifier. `Unknown` carries the platform's raw
/// numeric id for extra buttons, which stays visible in the translated code.
#[derive(Clone, Copy, PartialEq, Eq, Structural, Debug)]
pub enum Button {
    Left,
    Right,
    Middle,
    Unknown(u8),
}

/// Whether the taxonomy has a code of its own for this key. Keys outside
/// this set all collapse to the sentinel 0x0000.
pub open spec fn key_recognized(k: Key) -> bool {
    match k {
        Key::PrintScreen => false,
        Key::ScrollLock => false,
        Key::Pause => false,
        Key::BackQuote => false,
        Key::IntlBackslash => false,
        Key::Function => false,
        Key::Unknown(_) => false,
        _ => true,
    }
}

/// The canonical 16-bit code of a key: category prefix in the high nibble,
/// per-category ordinal (ASCII value where the category is ASCII-aligned)
/// in the low 12 bits. Unrecognized keys map to the sentinel 0x0000.
pub open spec fn key_code(k: Key) -> u16 {
    match k {
        Key::F1 => 0xf001,
        Key::F2 => 0xf002,
        Key::F3 => 0xf003,
        Key::F4 => 0xf004,
        Key::F5 => 0xf005,
        Key::F6 => 0xf006,
        Key::F7 => 0xf007,
        Key::F8 => 0xf008,
        Key::F9 => 0xf009,
        Key::F10 => 0xf00a,
        Key::F11 => 0xf00b,
        Key::F12 => 0xf00c,
        Key::Alt => 0xe000,
        Key::AltGr => 0xe001,
        Key::ControlLeft => 0xe002,
        Key::ControlRight => 0xe003,
        Key::Escape => 0xe004,
        Key::MetaLeft => 0xe005,
        Key::MetaRight => 0xe006,
        Key::ShiftLeft => 0xe008,
        Key::ShiftRight => 0xe009,
        Key::Home => 0xe00a,
        Key::End => 0xe00b,
        Key::PageDown => 0xe00c,
        Key::PageUp => 0xe00d,
        Key::Return => 0xe00e,
        Key::Insert => 0xe00f,
        Key::CapsLock => 0xe010,
        Key::Delete => 0xe011,
        Key::UpArrow => 0xd000,
        Key::DownArrow => 0xd001,
        Key::LeftArrow => 0xd002,
        Key::RightArrow => 0xd003,
        Key::Tab => 0xc009,
        Key::Backspace => 0xc008,
        Key::Space => 0xc020,
        Key::Quote => 0x3027,
        Key::Comma => 0x302c,
        Key::Minus => 0x302d,
        Key::Dot => 0x302e,
        Key::Slash => 0x302f,
        Key::SemiColon => 0x303b,
        Key::Equal => 0x303d,
        Key::LeftBracket => 0x305b,
        Key::BackSlash => 0x305c,
        Key::RightBracket => 0x305d,
        Key::KeyA => 0x0041,
        Key::KeyB => 0x0042,
        Key::KeyC => 0x0043,
        Key::KeyD => 0x0044,
        Key::KeyE => 0x0045,
        Key::KeyF => 0x0046,
        Key::KeyG => 0x0047,
        Key::KeyH => 0x0048,
        Key::KeyI => 0x0049,
        Key::KeyJ => 0x004a,
        Key::KeyK => 0x004b,
        Key::KeyL => 0x004c,
        Key::KeyM => 0x004d,
        Key::KeyN => 0x004e,
        Key::KeyO => 0x004f,
        Key::KeyP => 0x0050,
        Key::KeyQ => 0x0051,
        Key::KeyR => 0x0052,
        Key::KeyS => 0x0053,
        Key::KeyT => 0x0054,
        Key::KeyU => 0x0055,
        Key::KeyV => 0x0056,
        Key::KeyW => 0x0057,
        Key::KeyX => 0x0058,
        Key::KeyY => 0x0059,
        Key::KeyZ => 0x005a,
        Key::Num0 => 0x1030,
        Key::Num1 => 0x1031,
        Key::Num2 => 0x1032,
        Key::Num3 => 0x1033,
        Key::Num4 => 0x1034,
        Key::Num5 => 0x1035,
        Key::Num6 => 0x1036,
        Key::Num7 => 0x1037,
        Key::Num8 => 0x1038,
        Key::Num9 => 0x1039,
        Key::Kp0 => 0x2000,
        Key::Kp1 => 0x2001,
        Key::Kp2 => 0x2002,
        Key::Kp3 => 0x2003,
        Key::Kp4 => 0x2004,
        Key::Kp5 => 0x2005,
        Key::Kp6 => 0x2006,
        Key::Kp7 => 0x2007,
        Key::Kp8 => 0x2008,
        Key::Kp9 => 0x2009,
        Key::NumLock => 0x200a,
        Key::KpPlus => 0x200b,
        Key::KpMinus => 0x200c,
        Key::KpMultiply => 0x200d,
        Key::KpReturn => 0x200e,
        Key::KpDivide => 0x200f,
        Key::KpDelete => 0x2011,
        _ => 0x0000,
    }
}

/// The canonical 16-bit code of a pointer button: always in category 0x4.
/// An extra button keeps its raw numeric id, so distinct extra buttons
/// stay distinguishable from each other.
pub open spec fn button_code(b: Button) -> u16 {
    match b {
        Button::Left => 0x4001,
        Button::Right => 0x4002,
        Button::Middle => 0x4003,
        Button::Unknown(num) => (0x4000 + num) as u16,
    }
}

/// Law: within the recognized key set the taxonomy is injective — two
/// recognized keys with the same canonical code are the same key, so no
/// two distinct recognized keys collide.
pub proof fn lemma_key_code_injective(a: Key, b: Key)
    requires
        key_recognized(a),
        key_recognized(b),
        key_code(a) == key_code(b),
    ensures
        a == b,
{
}

/// Law: the sentinel is exclusive — a key translates to 0x0000 exactly
/// when it is outside the recognized set; no recognized key ever produces
/// the sentinel.
pub proof fn lemma_unknown_sentinel_exclusive(k: Key)
    ensures
        key_code(k) == 0x0000 <==> !key_recognized(k),
{
}

/// Law: every key code carries a documented category prefix in its high
/// nibble: alphabetic 0x0 (which also covers the sentinel), digits 0x1,
/// keypad 0x2, symbols 0x3, whitespace 0xC, arrows 0xD, modifiers 0xE,
/// function keys 0xF.
pub proof fn lemma_key_category_prefix(k: Key)
    ensures
        key_code(k) / 0x1000 == 0x0 || key_code(k) / 0x1000 == 0x1 || key_code(k) / 0x1000
            == 0x2 || key_code(k) / 0x1000 == 0x3 || key_code(k) / 0x1000 == 0xc || key_code(k)
            / 0x1000 == 0xd || key_code(k) / 0x1000 == 0xe || key_code(k) / 0x1000 == 0xf,
{
}

/// Law: every button code carries the pointer-button category prefix 0x4.
pub proof fn lemma_button_category_prefix(b: Button)
    ensures
        button_code(b) / 0x1000 == 0x4,
{
}

/// Law: the three named buttons are injective among themselves, and two
/// distinct extra buttons keep distinct codes — the raw id stays visible
/// in the low bits.
pub proof fn lemma_button_code_injective(a: Button, b: Button)
    requires
        a != b,
        !(a is Unknown && (b is Left || b is Right || b is Middle)),
        !(b is Unknown && (a is Left || a is Right || a is Middle)),
    ensures
        button_code(a) != button_code(b),
{
}

/// A key identifier paired with its translation into the canonical code
/// space.
pub struct UKey(pub Key);

impl UKey {
    /// Translates the key into its canonical code. Total: every key,
    /// recognized or not, yields a defined code; unrecognized keys yield
    /// the sentinel 0x0000.
    pub fn to_int(&self) -> (r: u16)
        ensures
            r == key_code(self.0),
    {
        match self.0 {
            Key::F1 => 0xf001,
            Key::F2 => 0xf002,
            Key::F3 => 0xf003,
            Key::F4 => 0xf004,
            Key::F5 => 0xf005,
            Key::F6 => 0xf006,
            Key::F7 => 0xf007,
            Key::F8 => 0xf008,
            Key::F9 => 0xf009,
            Key::F10 => 0xf00a,
            Key::F11 => 0xf00b,
            Key::F12 => 0xf00c,
            Key::Alt => 0xe000,
            Key::AltGr => 0xe001,
            Key::ControlLeft => 0xe002,
            Key::ControlRight => 0xe003,
            Key::Escape => 0xe004,
            Key::MetaLeft => 0xe005,
            Key::MetaRight => 0xe006,
            Key::ShiftLeft => 0xe008,
            Key::ShiftRight => 0xe009,
            Key::Home => 0xe00a,
            Key::End => 0xe00b,
            Key::PageDown => 0xe00c,
            Key::PageUp => 0xe00d,
            Key::Return => 0xe00e,
            Key::Insert => 0xe00f,
            Key::CapsLock => 0xe010,
            Key::Delete => 0xe011,
            Key::UpArrow => 0xd000,
            Key::DownArrow => 0xd001,
            Key::LeftArrow => 0xd002,
            Key::RightArrow => 0xd003,
            Key::Tab => 0xc009,
            Key::Backspace => 0xc008,
            Key::Space => 0xc020,
            Key::Quote => 0x3027,
            Key::Comma => 0x302c,
            Key::Minus => 0x302d,
            Key::Dot => 0x302e,
            Key::Slash => 0x302f,
            Key::SemiColon => 0x303b,
            Key::Equal => 0x303d,
            Key::LeftBracket => 0x305b,
            Key::BackSlash => 0x305c,
            Key::RightBracket => 0x305d,
            Key::KeyA => 0x0041,
            Key::KeyB => 0x0042,
            Key::KeyC => 0x0043,
            Key::KeyD => 0x0044,
            Key::KeyE => 0x0045,
            Key::KeyF => 0x0046,
            Key::KeyG => 0x0047,
            Key::KeyH => 0x0048,
            Key::KeyI => 0x0049,
            Key::KeyJ => 0x004a,
            Key::KeyK => 0x004b,
            Key::KeyL => 0x004c,
            Key::KeyM => 0x004d,
            Key::KeyN => 0x004e,
            Key::KeyO => 0x004f,
            Key::KeyP => 0x0050,
            Key::KeyQ => 0x0051,
            Key::KeyR => 0x0052,
            Key::KeyS => 0x0053,
            Key::KeyT => 0x0054,
            Key::KeyU => 0x0055,
            Key::KeyV => 0x0056,
            Key::KeyW => 0x0057,
            Key::KeyX => 0x0058,
            Key::KeyY => 0x0059,
            Key::KeyZ => 0x005a,
            Key::Num0 => 0x1030,
            Key::Num1 => 0x1031,
            Key::Num2 => 0x1032,
            Key::Num3 => 0x1033,
            Key::Num4 => 0x1034,
            Key::Num5 => 0x1035,
            Key::Num6 => 0x1036,
            Key::Num7 => 0x1037,
            Key::Num8 => 0x1038,
            Key::Num9 => 0x1039,
            Key::Kp0 => 0x2000,
            Key::Kp1 => 0x2001,
            Key::Kp2 => 0x2002,
            Key::Kp3 => 0x2003,
            Key::Kp4 => 0x2004,
            Key::Kp5 => 0x2005,
            Key::Kp6 => 0x2006,
            Key::Kp7 => 0x2007,
            Key::Kp8 => 0x2008,
            Key::Kp9 => 0x2009,
            Key::NumLock => 0x200a,
            Key::KpPlus => 0x200b,
            Key::KpMinus => 0x200c,
            Key::KpMultiply => 0x200d,
            Key::KpReturn => 0x200e,
            Key::KpDivide => 0x200f,
            Key::KpDelete => 0x2011,
            _ => 0x0000,
        }
    }
}

/// A button identifier paired with its translation into the canonical code
/// space.
pub struct UButton(pub Button);

impl UButton {
    /// Translates the button into its canonical code. Total, and always in
    /// category 0x4.
    pub fn to_int(&self) -> (r: u16)
        ensures
            r == button_code(self.0),
    {
        match self.0 {
            Button::Left => 0x4001,
            Button::Right => 0x4002,
            Button::Middle => 0x4003,
            Button::Unknown(num) => 0x4000 + (num as u16),
        }
    }
}

} // verus!
