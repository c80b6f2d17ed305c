use vstd::prelude::*;

verus! {
/// The state of a key or of a mouse button.
#[derive(Debug, Clone, Copy, PartialEq, Eq, Structural)]
pub enum Action {
    /// The key or button is released.
    Release,
    /// The key or button is pressed.
    Press,
}

/// A mouse button.
#[derive(Debug, Clone, Copy, PartialEq, Eq, Structural)]
pub enum MouseButton {
    /// The first (usually left) button.
    Button1,
    /// The second (usually right) button.
    Button2,
    /// The third (usually middle) button.
    Button3,
    /// The fourth button.
    Button4,
    /// The fifth button.
    Button5,
    /// The sixth button.
    Button6,
    /// The seventh button.
    Button7,
    /// The eighth button.
    Button8,
}

/// The number of mouse buttons.
pub const MOUSE_BUTTON_COUNT: usize = 8;

impl MouseButton {
    /// The position of this button in a per-button table.
    pub open spec fn spec_index(self) -> int {
        match self {
            MouseButton::Button1 => 0,
            MouseButton::Button2 => 1,
            MouseButton::Button3 => 2,
            MouseButton::Button4 => 3,
            MouseButton::Button5 => 4,
            MouseButton::Button6 => 5,
            MouseButton::Button7 => 6,
            MouseButton::Button8 => 7,
        }
    }

    /// The position of this button in a per-button table.
    pub fn index(self) -> (r: usize)
        ensures
            r == self.spec_index(),
            r < MOUSE_BUTTON_COUNT,
    {
        match self {
            MouseButton::Button1 => 0,
            MouseButton::Button2 => 1,
            MouseButton::Button3 => 2,
            MouseButton::Button4 => 3,
            MouseButton::Button5 => 4,
            MouseButton::Button6 => 5,
            MouseButton::Button7 => 6,
            MouseButton::Button8 => 7,
        }
    }
}

/// The phase of a touch.
#[derive(Debug, Clone, Copy, PartialEq, Eq, Structural)]
pub enum TouchAction {
    /// A finger touched the screen.
    Start,
    /// A finger moved on the screen.
    Move,
    /// A finger left the screen.
    End,
    /// The touch was cancelled.
    Cancel,
}

/// A set of keyboard modifiers.
#[derive(Debug, Clone, Copy, PartialEq, Eq, Structural)]
pub struct Modifiers {
    /// Shift is held.
    pub shift: bool,
    /// Control is held.
    pub control: bool,
    /// Alt is held.
    pub alt: bool,
    /// Super (the logo or command key) is held.
    pub super_key: bool,
}

impl Modifiers {
    /// No modifier.
    pub open spec fn empty_spec() -> Modifiers {
        Modifiers { shift: false, control: false, alt: false, super_key: false }
    }

    /// No modifier.
    pub fn empty() -> (r: Modifiers)
        ensures
            r == Modifiers::empty_spec(),
    {
        Modifiers { shift: false, control: false, alt: false, super_key: false }
    }

    /// Shift alone.
    pub fn shift() -> (r: Modifiers)
        ensures
            r.shift && !r.control && !r.alt && !r.super_key,
    {
        Modifiers { shift: true, control: false, alt: false, super_key: false }
    }

    /// Control alone.
    pub fn control() -> (r: Modifiers)
        ensures
            !r.shift && r.control && !r.alt && !r.super_key,
    {
        Modifiers { shift: false, control: true, alt: false, super_key: false }
    }

    /// Alt alone.
    pub fn alt() -> (r: Modifiers)
        ensures
            !r.shift && !r.control && r.alt && !r.super_key,
    {
        Modifiers { shift: false, control: false, alt: true, super_key: false }
    }

    /// Super alone.
    pub fn super_() -> (r: Modifiers)
        ensures
            !r.shift && !r.control && !r.alt && r.super_key,
    {
        Modifiers { shift: false, control: false, alt: false, super_key: true }
    }

    /// Adds the modifiers of `other` to this set.
    pub fn insert(&mut self, other: Modifiers)
        ensures
            final(self).shift == (old(self).shift || other.shift),
            final(self).control == (old(self).control || other.control),
            final(self).alt == (old(self).alt || other.alt),
            final(self).super_key == (old(self).super_key || other.super_key),
    {
        self.shift = self.shift || other.shift;
        self.control = self.control || other.control;
        self.alt = self.alt || other.alt;
        self.super_key = self.super_key || other.super_key;
    }

    /// Whether every modifier of `other` is in this set.
    pub fn contains(&self, other: Modifiers) -> (r: bool)
        ensures
            r == ((other.shift ==> self.shift) && (other.control ==> self.control) && (other.alt
                ==> self.alt) && (other.super_key ==> self.super_key)),
    {
        (!other.shift || self.shift) && (!other.control || self.control) && (!other.alt
            || self.alt) && (!other.super_key || self.super_key)
    }
}

/// The modifiers set from the state of each modifier key, as a platform reports
/// it with a keyboard, mouse or touch event.
pub fn translate_modifiers(shift: bool, control: bool, alt: bool, super_key: bool) -> (r: Modifiers)
    ensures
        r == (Modifiers { shift, control, alt, super_key }),
{
    let mut res = Modifiers::empty();
    if shift {
        res.insert(Modifiers::shift())
    }
    if control {
        res.insert(Modifiers::control())
    }
    if alt {
        res.insert(Modifiers::alt())
    }
    if super_key {
        res.insert(Modifiers::super_())
    }
    res
}

/// The mouse button of a browser mouse event's `button` number: 0 is the main
/// button, 1 the auxiliary (middle) one, 2 the secondary (right) one, 3 and 4
/// the back and forward buttons; any other number counts as the fifth button.
pub fn translate_web_mouse_button(button: i16) -> (r: MouseButton)
    ensures
        r == (if button == 0 {
            MouseButton::Button1
        } else if button == 1 {
            MouseButton::Button3
        } else if button == 2 {
            MouseButton::Button2
        } else if button == 3 {
            MouseButton::Button4
        } else {
            MouseButton::Button5
        }),
{
    match button {
        0 => MouseButton::Button1,
        1 => MouseButton::Button3,
        2 => MouseButton::Button2,
        3 => MouseButton::Button4,
        4 => MouseButton::Button5,
        _ => MouseButton::Button5,
    }
}

/// A keyboard key.
#[derive(Debug, Clone, Copy, PartialEq, Eq, Structural)]
pub enum Key {
    /// The `Key1` key.
    Key1,
    /// The `Key2` key.
    Key2,
    /// The `Key3` key.
    Key3,
    /// The `Key4` key.
    Key4,
    /// The `Key5` key.
    Key5,
    /// The `Key6` key.
    Key6,
    /// The `Key7` key.
    Key7,
    /// The `Key8` key.
    Key8,
    /// The `Key9` key.
    Key9,
    /// The `Key0` key.
    Key0,
    /// The `A` key.
    A,
    /// The `B` key.
    B,
    /// The `C` key.
    C,
    /// The `D` key.
    D,
    /// The `E` key.
    E,
    /// The `F` key.
    F,
    /// The `G` key.
    G,
    /// The `H` key.
    H,
    /// The `I` key.
    I,
    /// The `J` key.
    J,
    /// The `K` key.
    K,
    /// The `L` key.
    L,
    /// The `M` key.
    M,
    /// The `N` key.
    N,
    /// The `O` key.
    O,
    /// The `P` key.
    P,
    /// The `Q` key.
    Q,
    /// The `R` key.
    R,
    /// The `S` key.
    S,
    /// The `T` key.
    T,
    /// The `U` key.
    U,
    /// The `V` key.
    V,
    /// The `W` key.
    W,
    /// The `X` key.
    X,
    /// The `Y` key.
    Y,
    /// The `Z` key.
    Z,
    /// The `Escape` key.
    Escape,
    /// The `F1` key.
    F1,
    /// The `F2` key.
    F2,
    /// The `F3` key.
    F3,
    /// The `F4` key.
    F4,
    /// The `F5` key.
    F5,
    /// The `F6` key.
    F6,
    /// The `F7` key.
    F7,
    /// The `F8` key.
    F8,
    /// The `F9` key.
    F9,
    /// The `F10` key.
    F10,
    /// The `F11` key.
    F11,
    /// The `F12` key.
    F12,
    /// The `F13` key.
    F13,
    /// The `F14` key.
    F14,
    /// The `F15` key.
    F15,
    /// The `F16` key.
    F16,
    /// The `F17` key.
    F17,
    /// The `F18` key.
    F18,
    /// The `F19` key.
    F19,
    /// The `F20` key.
    F20,
    /// The `F21` key.
    F21,
    /// The `F22` key.
    F22,
    /// The `F23` key.
    F23,
    /// The `F24` key.
    F24,
    /// The `Snapshot` key.
    Snapshot,
    /// The `Scroll` key.
    Scroll,
    /// The `Pause` key.
    Pause,
    /// The `Insert` key.
    Insert,
    /// The `Home` key.
    Home,
    /// The `Delete` key.
    Delete,
    /// The `End` key.
    End,
    /// The `PageDown` key.
    PageDown,
    /// The `PageUp` key.
    PageUp,
    /// The `Left` key.
    Left,
    /// The `Up` key.
    Up,
    /// The `Right` key.
    Right,
    /// The `Down` key.
    Down,
    /// The `Back` key.
    Back,
    /// The `Return` key.
    Return,
    /// The `Space` key.
    Space,
    /// The `Compose` key.
    Compose,
    /// The `Caret` key.
    Caret,
    /// The `Numlock` key.
    Numlock,
    /// The `Numpad0` key.
    Numpad0,
    /// The `Numpad1` key.
    Numpad1,
    /// The `Numpad2` key.
    Numpad2,
    /// The `Numpad3` key.
    Numpad3,
    /// The `Numpad4` key.
    Numpad4,
    /// The `Numpad5` key.
    Numpad5,
    /// The `Numpad6` key.
    Numpad6,
    /// The `Numpad7` key.
    Numpad7,
    /// The `Numpad8` key.
    Numpad8,
    /// The `Numpad9` key.
    Numpad9,
    /// The `AbntC1` key.
    AbntC1,
    /// The `AbntC2` key.
    AbntC2,
    /// The `Add` key.
    Add,
    /// The `Apostrophe` key.
    Apostrophe,
    /// The `Apps` key.
    Apps,
    /// The `At` key.
    At,
    /// The `Ax` key.
    Ax,
    /// The `Backslash` key.
    Backslash,
    /// The `Calculator` key.
    Calculator,
    /// The `Capital` key.
    Capital,
    /// The `Colon` key.
    Colon,
    /// The `Comma` key.
    Comma,
    /// The `Convert` key.
    Convert,
    /// The `Decimal` key.
    Decimal,
    /// The `Divide` key.
    Divide,
    /// The `Equals` key.
    Equals,
    /// The `Grave` key.
    Grave,
    /// The `Kana` key.
    Kana,
    /// The `Kanji` key.
    Kanji,
    /// The `LAlt` key.
    LAlt,
    /// The `LBracket` key.
    LBracket,
    /// The `LControl` key.
    LControl,
    /// The `LShift` key.
    LShift,
    /// The `LWin` key.
    LWin,
    /// The `Mail` key.
    Mail,
    /// The `MediaSelect` key.
    MediaSelect,
    /// The `MediaStop` key.
    MediaStop,
    /// The `Minus` key.
    Minus,
    /// The `Multiply` key.
    Multiply,
    /// The `Mute` key.
    Mute,
    /// The `MyComputer` key.
    MyComputer,
    /// The `NavigateForward` key.
    NavigateForward,
    /// The `NavigateBackward` key.
    NavigateBackward,
    /// The `NextTrack` key.
    NextTrack,
    /// The `NoConvert` key.
    NoConvert,
    /// The `NumpadComma` key.
    NumpadComma,
    /// The `NumpadEnter` key.
    NumpadEnter,
    /// The `NumpadEquals` key.
    NumpadEquals,
    /// The `OEM102` key.
    OEM102,
    /// The `Period` key.
    Period,
    /// The `PlayPause` key.
    PlayPause,
    /// The `Power` key.
    Power,
    /// The `PrevTrack` key.
    PrevTrack,
    /// The `RAlt` key.
    RAlt,
    /// The `RBracket` key.
    RBracket,
    /// The `RControl` key.
    RControl,
    /// The `RShift` key.
    RShift,
    /// The `RWin` key.
    RWin,
    /// The `Semicolon` key.
    Semicolon,
    /// The `Slash` key.
    Slash,
    /// The `Sleep` key.
    Sleep,
    /// The `Stop` key.
    Stop,
    /// The `Subtract` key.
    Subtract,
    /// The `Sysrq` key.
    Sysrq,
    /// The `Tab` key.
    Tab,
    /// The `Underline` key.
    Underline,
    /// The `Unlabeled` key.
    Unlabeled,
    /// The `VolumeDown` key.
    VolumeDown,
    /// The `VolumeUp` key.
    VolumeUp,
    /// The `Wake` key.
    Wake,
    /// The `WebBack` key.
    WebBack,
    /// The `WebFavorites` key.
    WebFavorites,
    /// The `WebForward` key.
    WebForward,
    /// The `WebHome` key.
    WebHome,
    /// The `WebRefresh` key.
    WebRefresh,
    /// The `WebSearch` key.
    WebSearch,
    /// The `WebStop` key.
    WebStop,
    /// The `Yen` key.
    Yen,
    /// The `Copy` key.
    Copy,
    /// The `Paste` key.
    Paste,
    /// The `Cut` key.
    Cut,
    /// A key with no other name.
    Unknown,
}

/// The number of keys.
pub const KEY_COUNT: usize = 162;

impl Key {
    /// The position of this key in a per-key table.
    pub open spec fn spec_index(self) -> int {
        match self {
            Key::Key1 => 0,
            Key::Key2 => 1,
            Key::Key3 => 2,
            Key::Key4 => 3,
            Key::Key5 => 4,
            Key::Key6 => 5,
            Key::Key7 => 6,
            Key::Key8 => 7,
            Key::Key9 => 8,
            Key::Key0 => 9,
            Key::A => 10,
            Key::B => 11,
            Key::C => 12,
            Key::D => 13,
            Key::E => 14,
            Key::F => 15,
            Key::G => 16,
            Key::H => 17,
            Key::I => 18,
            Key::J => 19,
            Key::K => 20,
            Key::L => 21,
            Key::M => 22,
            Key::N => 23,
            Key::O => 24,
            Key::P => 25,
            Key::Q => 26,
            Key::R => 27,
            Key::S => 28,
            Key::T => 29,
            Key::U => 30,
            Key::V => 31,
            Key::W => 32,
            Key::X => 33,
            Key::Y => 34,
            Key::Z => 35,
            Key::Escape => 36,
            Key::F1 => 37,
            Key::F2 => 38,
            Key::F3 => 39,
            Key::F4 => 40,
            Key::F5 => 41,
            Key::F6 => 42,
            Key::F7 => 43,
            Key::F8 => 44,
            Key::F9 => 45,
            Key::F10 => 46,
            Key::F11 => 47,
            Key::F12 => 48,
            Key::F13 => 49,
            Key::F14 => 50,
            Key::F15 => 51,
            Key::F16 => 52,
            Key::F17 => 53,
            Key::F18 => 54,
            Key::F19 => 55,
            Key::F20 => 56,
            Key::F21 => 57,
            Key::F22 => 58,
            Key::F23 => 59,
            Key::F24 => 60,
            Key::Snapshot => 61,
            Key::Scroll => 62,
            Key::Pause => 63,
            Key::Insert => 64,
            Key::Home => 65,
            Key::Delete => 66,
            Key::End => 67,
            Key::PageDown => 68,
            Key::PageUp => 69,
            Key::Left => 70,
            Key::Up => 71,
            Key::Right => 72,
            Key::Down => 73,
            Key::Back => 74,
            Key::Return => 75,
            Key::Space => 76,
            Key::Compose => 77,
            Key::Caret => 78,
            Key::Numlock => 79,
            Key::Numpad0 => 80,
            Key::Numpad1 => 81,
            Key::Numpad2 => 82,
            Key::Numpad3 => 83,
            Key::Numpad4 => 84,
            Key::Numpad5 => 85,
            Key::Numpad6 => 86,
            Key::Numpad7 => 87,
            Key::Numpad8 => 88,
            Key::Numpad9 => 89,
            Key::AbntC1 => 90,
            Key::AbntC2 => 91,
            Key::Add => 92,
            Key::Apostrophe => 93,
            Key::Apps => 94,
            Key::At => 95,
            Key::Ax => 96,
            Key::Backslash => 97,
            Key::Calculator => 98,
            Key::Capital => 99,
            Key::Colon => 100,
            Key::Comma => 101,
            Key::Convert => 102,
            Key::Decimal => 103,
            Key::Divide => 104,
            Key::Equals => 105,
            Key::Grave => 106,
            Key::Kana => 107,
            Key::Kanji => 108,
            Key::LAlt => 109,
            Key::LBracket => 110,
            Key::LControl => 111,
            Key::LShift => 112,
            Key::LWin => 113,
            Key::Mail => 114,
            Key::MediaSelect => 115,
            Key::MediaStop => 116,
            Key::Minus => 117,
            Key::Multiply => 118,
            Key::Mute => 119,
            Key::MyComputer => 120,
            Key::NavigateForward => 121,
            Key::NavigateBackward => 122,
            Key::NextTrack => 123,
            Key::NoConvert => 124,
            Key::NumpadComma => 125,
            Key::NumpadEnter => 126,
            Key::NumpadEquals => 127,
            Key::OEM102 => 128,
            Key::Period => 129,
            Key::PlayPause => 130,
            Key::Power => 131,
            Key::PrevTrack => 132,
            Key::RAlt => 133,
            Key::RBracket => 134,
            Key::RControl => 135,
            Key::RShift => 136,
            Key::RWin => 137,
            Key::Semicolon => 138,
            Key::Slash => 139,
            Key::Sleep => 140,
            Key::Stop => 141,
            Key::Subtract => 142,
            Key::Sysrq => 143,
            Key::Tab => 144,
            Key::Underline => 145,
            Key::Unlabeled => 146,
            Key::VolumeDown => 147,
            Key::VolumeUp => 148,
            Key::Wake => 149,
            Key::WebBack => 150,
            Key::WebFavorites => 151,
            Key::WebForward => 152,
            Key::WebHome => 153,
            Key::WebRefresh => 154,
            Key::WebSearch => 155,
            Key::WebStop => 156,
            Key::Yen => 157,
            Key::Copy => 158,
            Key::Paste => 159,
            Key::Cut => 160,
            Key::Unknown => 161,
        }
    }

    /// The position of this key in a per-key table.
    pub fn index(self) -> (r: usize)
        ensures
            r == self.spec_index(),
            r < KEY_COUNT,
    {
        match self {
            Key::Key1 => 0,
            Key::Key2 => 1,
            Key::Key3 => 2,
            Key::Key4 => 3,
            Key::Key5 => 4,
            Key::Key6 => 5,
            Key::Key7 => 6,
            Key::Key8 => 7,
            Key::Key9 => 8,
            Key::Key0 => 9,
            Key::A => 10,
            Key::B => 11,
            Key::C => 12,
            Key::D => 13,
            Key::E => 14,
            Key::F => 15,
            Key::G => 16,
            Key::H => 17,
            Key::I => 18,
            Key::J => 19,
            Key::K => 20,
            Key::L => 21,
            Key::M => 22,
            Key::N => 23,
            Key::O => 24,
            Key::P => 25,
            Key::Q => 26,
            Key::R => 27,
            Key::S => 28,
            Key::T => 29,
            Key::U => 30,
            Key::V => 31,
            Key::W => 32,
            Key::X => 33,
            Key::Y => 34,
            Key::Z => 35,
            Key::Escape => 36,
            Key::F1 => 37,
            Key::F2 => 38,
            Key::F3 => 39,
            Key::F4 => 40,
            Key::F5 => 41,
            Key::F6 => 42,
            Key::F7 => 43,
            Key::F8 => 44,
            Key::F9 => 45,
            Key::F10 => 46,
            Key::F11 => 47,
            Key::F12 => 48,
            Key::F13 => 49,
            Key::F14 => 50,
            Key::F15 => 51,
            Key::F16 => 52,
            Key::F17 => 53,
            Key::F18 => 54,
            Key::F19 => 55,
            Key::F20 => 56,
            Key::F21 => 57,
            Key::F22 => 58,
            Key::F23 => 59,
            Key::F24 => 60,
            Key::Snapshot => 61,
            Key::Scroll => 62,
            Key::Pause => 63,
            Key::Insert => 64,
            Key::Home => 65,
            Key::Delete => 66,
            Key::End => 67,
            Key::PageDown => 68,
            Key::PageUp => 69,
            Key::Left => 70,
            Key::Up => 71,
            Key::Right => 72,
            Key::Down => 73,
            Key::Back => 74,
            Key::Return => 75,
            Key::Space => 76,
            Key::Compose => 77,
            Key::Caret => 78,
            Key::Numlock => 79,
            Key::Numpad0 => 80,
            Key::Numpad1 => 81,
            Key::Numpad2 => 82,
            Key::Numpad3 => 83,
            Key::Numpad4 => 84,
            Key::Numpad5 => 85,
            Key::Numpad6 => 86,
            Key::Numpad7 => 87,
            Key::Numpad8 => 88,
            Key::Numpad9 => 89,
            Key::AbntC1 => 90,
            Key::AbntC2 => 91,
            Key::Add => 92,
            Key::Apostrophe => 93,
            Key::Apps => 94,
            Key::At => 95,
            Key::Ax => 96,
            Key::Backslash => 97,
            Key::Calculator => 98,
            Key::Capital => 99,
            Key::Colon => 100,
            Key::Comma => 101,
            Key::Convert => 102,
            Key::Decimal => 103,
            Key::Divide => 104,
            Key::Equals => 105,
            Key::Grave => 106,
            Key::Kana => 107,
            Key::Kanji => 108,
            Key::LAlt => 109,
            Key::LBracket => 110,
            Key::LControl => 111,
            Key::LShift => 112,
            Key::LWin => 113,
            Key::Mail => 114,
            Key::MediaSelect => 115,
            Key::MediaStop => 116,
            Key::Minus => 117,
            Key::Multiply => 118,
            Key::Mute => 119,
            Key::MyComputer => 120,
            Key::NavigateForward => 121,
            Key::NavigateBackward => 122,
            Key::NextTrack => 123,
            Key::NoConvert => 124,
            Key::NumpadComma => 125,
            Key::NumpadEnter => 126,
            Key::NumpadEquals => 127,
            Key::OEM102 => 128,
            Key::Period => 129,
            Key::PlayPause => 130,
            Key::Power => 131,
            Key::PrevTrack => 132,
            Key::RAlt => 133,
            Key::RBracket => 134,
            Key::RControl => 135,
            Key::RShift => 136,
            Key::RWin => 137,
            Key::Semicolon => 138,
            Key::Slash => 139,
            Key::Sleep => 140,
            Key::Stop => 141,
            Key::Subtract => 142,
            Key::Sysrq => 143,
            Key::Tab => 144,
            Key::Underline => 145,
            Key::Unlabeled => 146,
            Key::VolumeDown => 147,
            Key::VolumeUp => 148,
            Key::Wake => 149,
            Key::WebBack => 150,
            Key::WebFavorites => 151,
            Key::WebForward => 152,
            Key::WebHome => 153,
            Key::WebRefresh => 154,
            Key::WebSearch => 155,
            Key::WebStop => 156,
            Key::Yen => 157,
            Key::Copy => 158,
            Key::Paste => 159,
            Key::Cut => 160,
            Key::Unknown => 161,
        }
    }
}

/// An event of a window, as its canvas reports it.
#[derive(Debug, Clone, Copy, PartialEq, Eq, Structural)]
pub enum WindowEvent {
    /// The window was asked to close.
    Close,
    /// The size of the framebuffer changed, in physical pixels.
    FramebufferSize(u32, u32),
    /// The size of the window changed.
    Size(u32, u32),
    /// A mouse button changed state, with the modifiers held then.
    MouseButton(MouseButton, Action, Modifiers),
    /// A key changed state, with the modifiers held then.
    Key(Key, Action, Modifiers),
    /// A character was typed.
    Char(char),
}

} // verus!
