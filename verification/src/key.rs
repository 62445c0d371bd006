//! Keys of the keyboard and the two states a key can be in.

use vstd::prelude::*;

verus! {

/// Whether a key is held down.
#[derive(Clone, Copy, Debug, PartialEq, Eq, Structural)]
pub enum KeyState {
    Pressed,
    Released,
}

/// How many keys [`Key`] names.
pub const KEY_COUNT: u32 = 161;

/// A key of the keyboard, named by what it means rather than by where it sits.
#[derive(Clone, Copy, Debug, PartialEq, Eq, Structural)]
pub enum Key {
    /// The digits in the row above the letters.
    Key1,
    Key2,
    Key3,
    Key4,
    Key5,
    Key6,
    Key7,
    Key8,
    Key9,
    Key0,
    /// The letters.
    A,
    B,
    C,
    D,
    E,
    F,
    G,
    H,
    I,
    J,
    K,
    L,
    M,
    N,
    O,
    P,
    Q,
    R,
    S,
    T,
    U,
    V,
    W,
    X,
    Y,
    Z,
    /// The Escape key: pressing it ends the frame loop.
    Escape,
    /// The function keys.
    F1,
    F2,
    F3,
    F4,
    F5,
    F6,
    F7,
    F8,
    F9,
    F10,
    F11,
    F12,
    F13,
    F14,
    F15,
    F16,
    F17,
    F18,
    F19,
    F20,
    F21,
    F22,
    F23,
    F24,
    /// Print Screen.
    Snapshot,
    /// Scroll Lock.
    Scroll,
    /// Pause or Break.
    Pause,
    /// The block of keys above the arrows.
    Insert,
    Home,
    Delete,
    End,
    PageDown,
    PageUp,
    /// The arrow keys.
    Left,
    Up,
    Right,
    Down,
    /// Backspace.
    Back,
    /// Enter.
    Return,
    /// The space bar.
    Space,
    /// The Compose key.
    Compose,
    Caret,
    /// The numeric keypad.
    Numlock,
    Numpad0,
    Numpad1,
    Numpad2,
    Numpad3,
    Numpad4,
    Numpad5,
    Numpad6,
    Numpad7,
    Numpad8,
    Numpad9,
    /// Punctuation, modifiers, media and browser keys, in alphabetical order.
    AbntC1,
    AbntC2,
    Add,
    Apostrophe,
    Apps,
    At,
    Ax,
    Backslash,
    Calculator,
    Capital,
    Colon,
    Comma,
    Convert,
    Decimal,
    Divide,
    Equals,
    Grave,
    Kana,
    Kanji,
    LAlt,
    LBracket,
    LControl,
    LShift,
    LWin,
    Mail,
    MediaSelect,
    MediaStop,
    Minus,
    Multiply,
    Mute,
    MyComputer,
    NavigateForward,
    NavigateBackward,
    NextTrack,
    NoConvert,
    NumpadComma,
    NumpadEnter,
    NumpadEquals,
    OEM102,
    Period,
    PlayPause,
    Power,
    PrevTrack,
    RAlt,
    RBracket,
    RControl,
    RShift,
    RWin,
    Semicolon,
    Slash,
    Sleep,
    Stop,
    Subtract,
    Sysrq,
    Tab,
    Underline,
    Unlabeled,
    VolumeDown,
    VolumeUp,
    Wake,
    WebBack,
    WebFavorites,
    WebForward,
    WebHome,
    WebRefresh,
    WebSearch,
    WebStop,
    Yen,
    /// The clipboard keys.
    Copy,
    Paste,
    Cut,
}

impl Key {
    /// The key's place in the enumeration, counted from zero.
    pub open spec fn spec_code(self) -> u32 {
        self as u32
    }

    /// The key's place in the enumeration, counted from zero. No two keys
    /// share a code, so a table may be keyed by it.
    #[verifier::when_used_as_spec(spec_code)]
    pub fn code(self) -> (code: u32)
        ensures
            code == self.spec_code(),
            code < KEY_COUNT,
    {
        self as u32
    }

    /// Two keys with the same code are the same key.
    pub proof fn lemma_code_is_injective(a: Key, b: Key)
        requires
            a.spec_code() == b.spec_code(),
        ensures
            a == b,
    {
    }
}

} // verus!
