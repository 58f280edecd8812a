//! The input vocabulary shared by the window and its users.
use vstd::prelude::*;

verus! {

/// Whether a key or a mouse button is held down.
#[derive(Copy, Clone, Debug, PartialEq, Eq, Hash, Structural)]
pub enum Action {
    /// The key or button is up.
    Release,
    /// The key or button is down.
    Press,
}

/// A mouse button.
#[derive(Copy, Clone, Debug, PartialEq, Eq, Hash, Structural)]
pub enum MouseButton {
    Button1,
    Button2,
    Button3,
    Button4,
    Button5,
    Button6,
    Button7,
    Button8,
}

/// The number of mouse buttons that the window tracks.
pub const BUTTON_COUNT: usize = 8;

/// A key of the keyboard, named after what is printed on it.
#[derive(Copy, Clone, Debug, PartialEq, Eq, Hash, Structural)]
pub enum Key {
    Key1,
    Key2,
    Key3,
    Key4,
    Key5,
    Key6,
    Key7,
    Key8,
    Key9,
    Key0,
    A,
    B,
    C,
    D,
    E,
    F,
    G,
    H,
    I,
    J,
    K,
    L,
    M,
    N,
    O,
    P,
    Q,
    R,
    S,
    T,
    U,
    V,
    W,
    X,
    Y,
    Z,
    Escape,
    F1,
    F2,
    F3,
    F4,
    F5,
    F6,
    F7,
    F8,
    F9,
    F10,
    F11,
    F12,
    F13,
    F14,
    F15,
    F16,
    F17,
    F18,
    F19,
    F20,
    F21,
    F22,
    F23,
    F24,
    Snapshot,
    Scroll,
    Pause,
    Insert,
    Home,
    Delete,
    End,
    PageDown,
    PageUp,
    Left,
    Up,
    Right,
    Down,
    Back,
    Return,
    Space,
    Compose,
    Caret,
    Numlock,
    Numpad0,
    Numpad1,
    Numpad2,
    Numpad3,
    Numpad4,
    Numpad5,
    Numpad6,
    Numpad7,
    Numpad8,
    Numpad9,
    AbntC1,
    AbntC2,
    Add,
    Apostrophe,
    Apps,
    At,
    Ax,
    Backslash,
    Calculator,
    Capital,
    Colon,
    Comma,
    Convert,
    Decimal,
    Divide,
    Equals,
    Grave,
    Kana,
    Kanji,
    LAlt,
    LBracket,
    LControl,
    LShift,
    LWin,
    Mail,
    MediaSelect,
    MediaStop,
    Minus,
    Multiply,
    Mute,
    MyComputer,
    NavigateForward,
    NavigateBackward,
    NextTrack,
    NoConvert,
    NumpadComma,
    NumpadEnter,
    NumpadEquals,
    OEM102,
    Period,
    PlayPause,
    Power,
    PrevTrack,
    RAlt,
    RBracket,
    RControl,
    RShift,
    RWin,
    Semicolon,
    Slash,
    Sleep,
    Stop,
    Subtract,
    Sysrq,
    Tab,
    Underline,
    Unlabeled,
    VolumeDown,
    VolumeUp,
    Wake,
    WebBack,
    WebFavorites,
    WebForward,
    WebHome,
    WebRefresh,
    WebSearch,
    WebStop,
    Yen,
    Copy,
    Paste,
    Cut,
    /// Any key that has no name of its own; always the last key.
    Unknown,
}

/// The number of keys that the window tracks: one past `Key::Unknown`.
pub const KEY_COUNT: usize = 162;

/// `Unknown` is the last key, so every key indexes a table of `KEY_COUNT` entries.
pub proof fn lemma_key_index_bound(k: Key)
    ensures
        0 <= (k as int) <= (Key::Unknown as int),
        (Key::Unknown as int) + 1 == KEY_COUNT,
{
}

/// Every mouse button indexes a table of `BUTTON_COUNT` entries.
pub proof fn lemma_button_index_bound(b: MouseButton)
    ensures
        0 <= (b as int) < BUTTON_COUNT,
        (MouseButton::Button8 as int) + 1 == BUTTON_COUNT,
{
}

/// Distinct keys occupy distinct slots of a key table.
pub proof fn lemma_key_index_injective(k1: Key, k2: Key)
    ensures
        k1 != k2 ==> (k1 as int) != (k2 as int),
{
}

/// Distinct mouse buttons occupy distinct slots of a button table.
pub proof fn lemma_button_index_injective(b1: MouseButton, b2: MouseButton)
    ensures
        b1 != b2 ==> (b1 as int) != (b2 as int),
{
}

/// A keyboard modifier.
#[derive(Copy, Clone, Debug, PartialEq, Eq, Hash, Structural)]
pub enum Modifier {
    Shift,
    Control,
    Alt,
    Super,
}

/// A set of keyboard modifiers.
#[derive(Copy, Clone, Debug, PartialEq, Eq, Hash, Structural)]
pub struct Modifiers {
    shift: bool,
    control: bool,
    alt: bool,
    super_key: bool,
}

impl View for Modifiers {
    type V = Set<Modifier>;

    closed spec fn view(&self) -> Set<Modifier> {
        Set::new(|m: Modifier| self.flag(m))
    }
}

impl Modifiers {
    /// Whether the flag of `m` is set.
    pub closed spec fn flag(self, m: Modifier) -> bool {
        match m {
            Modifier::Shift => self.shift,
            Modifier::Control => self.control,
            Modifier::Alt => self.alt,
            Modifier::Super => self.super_key,
        }
    }

    /// The set holds exactly the modifiers whose flags are set.
    pub broadcast proof fn lemma_view_contains(self, m: Modifier)
        ensures
            #[trigger] self@.contains(m) == self.flag(m),
    {
    }

    /// Two sets of modifiers are the same value exactly when they hold the same modifiers.
    pub proof fn lemma_view_injective(self, other: Modifiers)
        ensures
            (self@ == other@) == (self == other),
    {
        if self@ == other@ {
            assert(self@.contains(Modifier::Shift) == other@.contains(Modifier::Shift));
            assert(self@.contains(Modifier::Control) == other@.contains(Modifier::Control));
            assert(self@.contains(Modifier::Alt) == other@.contains(Modifier::Alt));
            assert(self@.contains(Modifier::Super) == other@.contains(Modifier::Super));
        }
    }

    /// The set with the given flags.
    pub closed spec fn with_flags(shift: bool, control: bool, alt: bool, super_key: bool) -> Modifiers {
        Modifiers { shift, control, alt, super_key }
    }

    /// The set built from flags holds exactly the flagged modifiers.
    pub proof fn lemma_with_flags(shift: bool, control: bool, alt: bool, super_key: bool)
        ensures
            Modifiers::with_flags(shift, control, alt, super_key)@ == Set::new(
                |m: Modifier|
                    match m {
                        Modifier::Shift => shift,
                        Modifier::Control => control,
                        Modifier::Alt => alt,
                        Modifier::Super => super_key,
                    },
            ),
    {
        assert(Modifiers::with_flags(shift, control, alt, super_key)@ =~= Set::new(
            |m: Modifier|
                match m {
                    Modifier::Shift => shift,
                    Modifier::Control => control,
                    Modifier::Alt => alt,
                    Modifier::Super => super_key,
                },
        ));
    }

    /// The empty set of modifiers.
    pub fn empty() -> (r: Modifiers)
        ensures
            r@ == Set::<Modifier>::empty(),
            r == Modifiers::with_flags(false, false, false, false),
    {
        let r = Modifiers { shift: false, control: false, alt: false, super_key: false };
        assert(r@ =~= Set::<Modifier>::empty());
        r
    }

    /// Adds `m` to the set.
    pub fn insert(&mut self, m: Modifier)
        ensures
            final(self)@ == old(self)@.insert(m),
    {
        match m {
            Modifier::Shift => self.shift = true,
            Modifier::Control => self.control = true,
            Modifier::Alt => self.alt = true,
            Modifier::Super => self.super_key = true,
        }
        assert(self@ =~= old(self)@.insert(m));
    }

    /// Whether `m` is in the set.
    pub fn contains(&self, m: Modifier) -> (r: bool)
        ensures
            r == self@.contains(m),
    {
        match m {
            Modifier::Shift => self.shift,
            Modifier::Control => self.control,
            Modifier::Alt => self.alt,
            Modifier::Super => self.super_key,
        }
    }
}

} // verus!
