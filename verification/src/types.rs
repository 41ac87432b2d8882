//! Keys, colours, periods and modes.

use crate::model::KeyboardModel;
use vstd::prelude::*;

verus! {

/// A colour as three independent byte channels.
#[derive(Clone, Copy, Debug, PartialEq, Eq, Structural)]
pub struct Color {
    pub red: u8,
    pub green: u8,
    pub blue: u8,
}

impl Color {
    /// A colour from its three channels.
    pub fn new(red: u8, green: u8, blue: u8) -> (color: Color)
        ensures
            color == (Color { red, green, blue }),
    {
        Color { red, green, blue }
    }

    /// The colour used where a request names none.
    pub open spec fn white() -> Color {
        Color { red: 255, green: 255, blue: 255 }
    }
}

impl Default for Color {
    fn default() -> (color: Color)
        ensures
            color == Color::white(),
    {
        Color { red: 255, green: 255, blue: 255 }
    }
}

/// Length of one animation cycle, in whole milliseconds.
#[derive(Clone, Copy, Debug, PartialEq, Eq, Structural)]
pub struct Period {
    pub millis: u128,
}

impl Period {
    /// A period of so many milliseconds.
    pub fn from_millis(millis: u64) -> (period: Period)
        ensures
            period.millis == millis,
    {
        Period { millis: millis as u128 }
    }

    /// A period of so many seconds.
    pub fn from_secs(secs: u64) -> (period: Period)
        ensures
            period.millis == secs * 1000,
    {
        Period { millis: (secs as u128) * 1000 }
    }

    /// The period in milliseconds.
    pub fn as_millis(self) -> (millis: u128)
        ensures
            millis == self.millis,
    {
        self.millis
    }

    /// The 16-bit millisecond count that goes on the wire: the period itself,
    /// or `0xffff` where it does not fit.
    pub open spec fn spec_wire_millis(self) -> u16 {
        if self.millis > 0xffff {
            0xffff
        } else {
            self.millis as u16
        }
    }

    /// The millisecond count that goes on the wire.
    #[verifier::when_used_as_spec(spec_wire_millis)]
    pub fn wire_millis(self) -> (millis: u16)
        ensures
            millis == self.spec_wire_millis(),
    {
        if self.millis > 0xffff {
            0xffff
        } else {
            self.millis as u16
        }
    }
}

impl Default for Period {
    fn default() -> (period: Period)
        ensures
            period.millis == 0,
    {
        Period { millis: 0 }
    }
}

/// What the firmware shows when the keyboard powers up.
#[derive(Clone, Copy, Debug, PartialEq, Eq, Structural)]
pub enum StartupMode {
    /// The built-in wave effect.
    Wave,
    /// A solid colour set by the firmware.
    Color,
}

impl StartupMode {
    /// The code that stands for the value on the wire.
    pub open spec fn spec_code(self) -> u8 {
        match self {
            StartupMode::Wave => 0x01,
            StartupMode::Color => 0x02,
        }
    }

    /// The code that stands for the value on the wire.
    #[verifier::when_used_as_spec(spec_code)]
    pub fn code(self) -> (code: u8)
        ensures
            code == self.spec_code(),
    {
        match self {
            StartupMode::Wave => 0x01,
            StartupMode::Color => 0x02,
        }
    }
}

/// Who drives the lighting: the keyboard's own memory or the host.
#[derive(Clone, Copy, Debug, PartialEq, Eq, Structural)]
pub enum OnBoardMode {
    Board,
    Software,
}

impl OnBoardMode {
    /// The code that stands for the value on the wire.
    pub open spec fn spec_code(self) -> u8 {
        match self {
            OnBoardMode::Board => 0x01,
            OnBoardMode::Software => 0x02,
        }
    }

    /// The code that stands for the value on the wire.
    #[verifier::when_used_as_spec(spec_code)]
    pub fn code(self) -> (code: u8)
        ensures
            code == self.spec_code(),
    {
        match self {
            OnBoardMode::Board => 0x01,
            OnBoardMode::Software => 0x02,
        }
    }
}


/// Two-byte scan code of every addressable light: the high byte is the
/// address group, the low byte the code the firmware knows the key by.
#[derive(Clone, Copy, Debug, PartialEq, Eq, Structural)]
#[non_exhaustive]
pub enum Key {
    Logo,
    Logo2,
    Backlight,
    Game,
    Caps,
    Scroll,
    Num,
    Next,
    Prev,
    Stop,
    Play,
    Mute,
    G1,
    G2,
    G3,
    G4,
    G5,
    G6,
    G7,
    G8,
    G9,
    A,
    B,
    C,
    D,
    E,
    F,
    G,
    H,
    I,
    J,
    K,
    L,
    M,
    N,
    O,
    P,
    Q,
    R,
    S,
    T,
    U,
    V,
    W,
    X,
    Y,
    Z,
    N1,
    N2,
    N3,
    N4,
    N5,
    N6,
    N7,
    N8,
    N9,
    N0,
    Enter,
    Esc,
    Backspace,
    Tab,
    Space,
    Minus,
    Equal,
    OpenBracket,
    CloseBracket,
    Backslash,
    Dollar,
    Semicolon,
    Quote,
    Tilde,
    Comma,
    Period,
    Slash,
    CapsLock,
    F1,
    F2,
    F3,
    F4,
    F5,
    F6,
    F7,
    F8,
    F9,
    F10,
    F11,
    F12,
    PrintScreen,
    ScrollLock,
    PauseBreak,
    Insert,
    Home,
    PageUp,
    Del,
    End,
    PageDown,
    ArrowRight,
    ArrowLeft,
    ArrowBottom,
    ArrowTop,
    NumLock,
    NumSlash,
    NumAsterisk,
    NumMinus,
    NumPlus,
    NumEnter,
    Num1,
    Num2,
    Num3,
    Num4,
    Num5,
    Num6,
    Num7,
    Num8,
    Num9,
    Num0,
    NumDot,
    IntlBackslash,
    Menu,
    AbntSlash,
    CtrlLeft,
    ShiftLeft,
    AltLeft,
    WinLeft,
    CtrlRight,
    ShiftRight,
    AltRight,
    WinRight,
}

impl Key {
    /// The code that stands for the value on the wire.
    pub open spec fn spec_code(self) -> u16 {
        match self {
            Key::Logo => 0x0001,
            Key::Logo2 => 0x0002,
            Key::Backlight => 0x0101,
            Key::Game => 0x0102,
            Key::Caps => 0x0103,
            Key::Scroll => 0x0104,
            Key::Num => 0x0105,
            Key::Next => 0x02b5,
            Key::Prev => 0x02b6,
            Key::Stop => 0x02b7,
            Key::Play => 0x02cd,
            Key::Mute => 0x02e2,
            Key::G1 => 0x0301,
            Key::G2 => 0x0302,
            Key::G3 => 0x0303,
            Key::G4 => 0x0304,
            Key::G5 => 0x0305,
            Key::G6 => 0x0306,
            Key::G7 => 0x0307,
            Key::G8 => 0x0308,
            Key::G9 => 0x0309,
            Key::A => 0x0404,
            Key::B => 0x0405,
            Key::C => 0x0406,
            Key::D => 0x0407,
            Key::E => 0x0408,
            Key::F => 0x0409,
            Key::G => 0x040a,
            Key::H => 0x040b,
            Key::I => 0x040c,
            Key::J => 0x040d,
            Key::K => 0x040e,
            Key::L => 0x040f,
            Key::M => 0x0410,
            Key::N => 0x0411,
            Key::O => 0x0412,
            Key::P => 0x0413,
            Key::Q => 0x0414,
            Key::R => 0x0415,
            Key::S => 0x0416,
            Key::T => 0x0417,
            Key::U => 0x0418,
            Key::V => 0x0419,
            Key::W => 0x041a,
            Key::X => 0x041b,
            Key::Y => 0x041c,
            Key::Z => 0x041d,
            Key::N1 => 0x041e,
            Key::N2 => 0x041f,
            Key::N3 => 0x0420,
            Key::N4 => 0x0421,
            Key::N5 => 0x0422,
            Key::N6 => 0x0423,
            Key::N7 => 0x0424,
            Key::N8 => 0x0425,
            Key::N9 => 0x0426,
            Key::N0 => 0x0427,
            Key::Enter => 0x0428,
            Key::Esc => 0x0429,
            Key::Backspace => 0x042a,
            Key::Tab => 0x042b,
            Key::Space => 0x042c,
            Key::Minus => 0x042d,
            Key::Equal => 0x042e,
            Key::OpenBracket => 0x042f,
            Key::CloseBracket => 0x0430,
            Key::Backslash => 0x0431,
            Key::Dollar => 0x0432,
            Key::Semicolon => 0x0433,
            Key::Quote => 0x0434,
            Key::Tilde => 0x0435,
            Key::Comma => 0x0436,
            Key::Period => 0x0437,
            Key::Slash => 0x0438,
            Key::CapsLock => 0x0439,
            Key::F1 => 0x043a,
            Key::F2 => 0x043b,
            Key::F3 => 0x043c,
            Key::F4 => 0x043d,
            Key::F5 => 0x043e,
            Key::F6 => 0x043f,
            Key::F7 => 0x0440,
            Key::F8 => 0x0441,
            Key::F9 => 0x0442,
            Key::F10 => 0x0443,
            Key::F11 => 0x0444,
            Key::F12 => 0x0445,
            Key::PrintScreen => 0x0446,
            Key::ScrollLock => 0x0447,
            Key::PauseBreak => 0x0448,
            Key::Insert => 0x0449,
            Key::Home => 0x044a,
            Key::PageUp => 0x044b,
            Key::Del => 0x044c,
            Key::End => 0x044d,
            Key::PageDown => 0x044e,
            Key::ArrowRight => 0x044f,
            Key::ArrowLeft => 0x0450,
            Key::ArrowBottom => 0x0451,
            Key::ArrowTop => 0x0452,
            Key::NumLock => 0x0453,
            Key::NumSlash => 0x0454,
            Key::NumAsterisk => 0x0455,
            Key::NumMinus => 0x0456,
            Key::NumPlus => 0x0457,
            Key::NumEnter => 0x0458,
            Key::Num1 => 0x0459,
            Key::Num2 => 0x045a,
            Key::Num3 => 0x045b,
            Key::Num4 => 0x045c,
            Key::Num5 => 0x045d,
            Key::Num6 => 0x045e,
            Key::Num7 => 0x045f,
            Key::Num8 => 0x0460,
            Key::Num9 => 0x0461,
            Key::Num0 => 0x0462,
            Key::NumDot => 0x0463,
            Key::IntlBackslash => 0x0464,
            Key::Menu => 0x0465,
            Key::AbntSlash => 0x0487,
            Key::CtrlLeft => 0x04e0,
            Key::ShiftLeft => 0x04e1,
            Key::AltLeft => 0x04e2,
            Key::WinLeft => 0x04e3,
            Key::CtrlRight => 0x04e4,
            Key::ShiftRight => 0x04e5,
            Key::AltRight => 0x04e6,
            Key::WinRight => 0x04e7,
        }
    }

    /// The two-byte scan code.
    #[verifier::when_used_as_spec(spec_code)]
    pub fn code(self) -> (code: u16)
        ensures
            code == self.spec_code(),
    {
        match self {
            Key::Logo => 0x0001,
            Key::Logo2 => 0x0002,
            Key::Backlight => 0x0101,
            Key::Game => 0x0102,
            Key::Caps => 0x0103,
            Key::Scroll => 0x0104,
            Key::Num => 0x0105,
            Key::Next => 0x02b5,
            Key::Prev => 0x02b6,
            Key::Stop => 0x02b7,
            Key::Play => 0x02cd,
            Key::Mute => 0x02e2,
            Key::G1 => 0x0301,
            Key::G2 => 0x0302,
            Key::G3 => 0x0303,
            Key::G4 => 0x0304,
            Key::G5 => 0x0305,
            Key::G6 => 0x0306,
            Key::G7 => 0x0307,
            Key::G8 => 0x0308,
            Key::G9 => 0x0309,
            Key::A => 0x0404,
            Key::B => 0x0405,
            Key::C => 0x0406,
            Key::D => 0x0407,
            Key::E => 0x0408,
            Key::F => 0x0409,
            Key::G => 0x040a,
            Key::H => 0x040b,
            Key::I => 0x040c,
            Key::J => 0x040d,
            Key::K => 0x040e,
            Key::L => 0x040f,
            Key::M => 0x0410,
            Key::N => 0x0411,
            Key::O => 0x0412,
            Key::P => 0x0413,
            Key::Q => 0x0414,
            Key::R => 0x0415,
            Key::S => 0x0416,
            Key::T => 0x0417,
            Key::U => 0x0418,
            Key::V => 0x0419,
            Key::W => 0x041a,
            Key::X => 0x041b,
            Key::Y => 0x041c,
            Key::Z => 0x041d,
            Key::N1 => 0x041e,
            Key::N2 => 0x041f,
            Key::N3 => 0x0420,
            Key::N4 => 0x0421,
            Key::N5 => 0x0422,
            Key::N6 => 0x0423,
            Key::N7 => 0x0424,
            Key::N8 => 0x0425,
            Key::N9 => 0x0426,
            Key::N0 => 0x0427,
            Key::Enter => 0x0428,
            Key::Esc => 0x0429,
            Key::Backspace => 0x042a,
            Key::Tab => 0x042b,
            Key::Space => 0x042c,
            Key::Minus => 0x042d,
            Key::Equal => 0x042e,
            Key::OpenBracket => 0x042f,
            Key::CloseBracket => 0x0430,
            Key::Backslash => 0x0431,
            Key::Dollar => 0x0432,
            Key::Semicolon => 0x0433,
            Key::Quote => 0x0434,
            Key::Tilde => 0x0435,
            Key::Comma => 0x0436,
            Key::Period => 0x0437,
            Key::Slash => 0x0438,
            Key::CapsLock => 0x0439,
            Key::F1 => 0x043a,
            Key::F2 => 0x043b,
            Key::F3 => 0x043c,
            Key::F4 => 0x043d,
            Key::F5 => 0x043e,
            Key::F6 => 0x043f,
            Key::F7 => 0x0440,
            Key::F8 => 0x0441,
            Key::F9 => 0x0442,
            Key::F10 => 0x0443,
            Key::F11 => 0x0444,
            Key::F12 => 0x0445,
            Key::PrintScreen => 0x0446,
            Key::ScrollLock => 0x0447,
            Key::PauseBreak => 0x0448,
            Key::Insert => 0x0449,
            Key::Home => 0x044a,
            Key::PageUp => 0x044b,
            Key::Del => 0x044c,
            Key::End => 0x044d,
            Key::PageDown => 0x044e,
            Key::ArrowRight => 0x044f,
            Key::ArrowLeft => 0x0450,
            Key::ArrowBottom => 0x0451,
            Key::ArrowTop => 0x0452,
            Key::NumLock => 0x0453,
            Key::NumSlash => 0x0454,
            Key::NumAsterisk => 0x0455,
            Key::NumMinus => 0x0456,
            Key::NumPlus => 0x0457,
            Key::NumEnter => 0x0458,
            Key::Num1 => 0x0459,
            Key::Num2 => 0x045a,
            Key::Num3 => 0x045b,
            Key::Num4 => 0x045c,
            Key::Num5 => 0x045d,
            Key::Num6 => 0x045e,
            Key::Num7 => 0x045f,
            Key::Num8 => 0x0460,
            Key::Num9 => 0x0461,
            Key::Num0 => 0x0462,
            Key::NumDot => 0x0463,
            Key::IntlBackslash => 0x0464,
            Key::Menu => 0x0465,
            Key::AbntSlash => 0x0487,
            Key::CtrlLeft => 0x04e0,
            Key::ShiftLeft => 0x04e1,
            Key::AltLeft => 0x04e2,
            Key::WinLeft => 0x04e3,
            Key::CtrlRight => 0x04e4,
            Key::ShiftRight => 0x04e5,
            Key::AltRight => 0x04e6,
            Key::WinRight => 0x04e7,
        }
    }

    /// The high byte of the scan code.
    pub open spec fn spec_group(self) -> u8 {
        (self.spec_code() / 256) as u8
    }

    /// Address group: 0 logo, 1 indicators, 2 multimedia, 3 G-keys, 4 the rest.
    #[verifier::when_used_as_spec(spec_group)]
    pub fn group(self) -> (group: u8)
        ensures
            group == self.spec_group(),
    {
        (self.code() / 256) as u8
    }

    /// The low byte of the scan code.
    pub open spec fn spec_hid_code(self) -> u8 {
        (self.spec_code() % 256) as u8
    }

    /// The low byte of the scan code.
    #[verifier::when_used_as_spec(spec_hid_code)]
    pub fn hid_code(self) -> (code: u8)
        ensures
            code == self.spec_hid_code(),
    {
        (self.code() % 256) as u8
    }

    /// Every key, in ascending order of scan code.
    pub open spec fn spec_all() -> Seq<Key> {
        seq![
            Key::Logo,
            Key::Logo2,
            Key::Backlight,
            Key::Game,
            Key::Caps,
            Key::Scroll,
            Key::Num,
            Key::Next,
            Key::Prev,
            Key::Stop,
            Key::Play,
            Key::Mute,
            Key::G1,
            Key::G2,
            Key::G3,
            Key::G4,
            Key::G5,
            Key::G6,
            Key::G7,
            Key::G8,
            Key::G9,
            Key::A,
            Key::B,
            Key::C,
            Key::D,
            Key::E,
            Key::F,
            Key::G,
            Key::H,
            Key::I,
            Key::J,
            Key::K,
            Key::L,
            Key::M,
            Key::N,
            Key::O,
            Key::P,
            Key::Q,
            Key::R,
            Key::S,
            Key::T,
            Key::U,
            Key::V,
            Key::W,
            Key::X,
            Key::Y,
            Key::Z,
            Key::N1,
            Key::N2,
            Key::N3,
            Key::N4,
            Key::N5,
            Key::N6,
            Key::N7,
            Key::N8,
            Key::N9,
            Key::N0,
            Key::Enter,
            Key::Esc,
            Key::Backspace,
            Key::Tab,
            Key::Space,
            Key::Minus,
            Key::Equal,
            Key::OpenBracket,
            Key::CloseBracket,
            Key::Backslash,
            Key::Dollar,
            Key::Semicolon,
            Key::Quote,
            Key::Tilde,
            Key::Comma,
            Key::Period,
            Key::Slash,
            Key::CapsLock,
            Key::F1,
            Key::F2,
            Key::F3,
            Key::F4,
            Key::F5,
            Key::F6,
            Key::F7,
            Key::F8,
            Key::F9,
            Key::F10,
            Key::F11,
            Key::F12,
            Key::PrintScreen,
            Key::ScrollLock,
            Key::PauseBreak,
            Key::Insert,
            Key::Home,
            Key::PageUp,
            Key::Del,
            Key::End,
            Key::PageDown,
            Key::ArrowRight,
            Key::ArrowLeft,
            Key::ArrowBottom,
            Key::ArrowTop,
            Key::NumLock,
            Key::NumSlash,
            Key::NumAsterisk,
            Key::NumMinus,
            Key::NumPlus,
            Key::NumEnter,
            Key::Num1,
            Key::Num2,
            Key::Num3,
            Key::Num4,
            Key::Num5,
            Key::Num6,
            Key::Num7,
            Key::Num8,
            Key::Num9,
            Key::Num0,
            Key::NumDot,
            Key::IntlBackslash,
            Key::Menu,
            Key::AbntSlash,
            Key::CtrlLeft,
            Key::ShiftLeft,
            Key::AltLeft,
            Key::WinLeft,
            Key::CtrlRight,
            Key::ShiftRight,
            Key::AltRight,
            Key::WinRight,
        ]
    }

    /// Every key, in ascending order of scan code.
    pub fn all() -> (keys: Vec<Key>)
        ensures
            keys@ == Key::spec_all(),
    {
        vec![
            Key::Logo,
            Key::Logo2,
            Key::Backlight,
            Key::Game,
            Key::Caps,
            Key::Scroll,
            Key::Num,
            Key::Next,
            Key::Prev,
            Key::Stop,
            Key::Play,
            Key::Mute,
            Key::G1,
            Key::G2,
            Key::G3,
            Key::G4,
            Key::G5,
            Key::G6,
            Key::G7,
            Key::G8,
            Key::G9,
            Key::A,
            Key::B,
            Key::C,
            Key::D,
            Key::E,
            Key::F,
            Key::G,
            Key::H,
            Key::I,
            Key::J,
            Key::K,
            Key::L,
            Key::M,
            Key::N,
            Key::O,
            Key::P,
            Key::Q,
            Key::R,
            Key::S,
            Key::T,
            Key::U,
            Key::V,
            Key::W,
            Key::X,
            Key::Y,
            Key::Z,
            Key::N1,
            Key::N2,
            Key::N3,
            Key::N4,
            Key::N5,
            Key::N6,
            Key::N7,
            Key::N8,
            Key::N9,
            Key::N0,
            Key::Enter,
            Key::Esc,
            Key::Backspace,
            Key::Tab,
            Key::Space,
            Key::Minus,
            Key::Equal,
            Key::OpenBracket,
            Key::CloseBracket,
            Key::Backslash,
            Key::Dollar,
            Key::Semicolon,
            Key::Quote,
            Key::Tilde,
            Key::Comma,
            Key::Period,
            Key::Slash,
            Key::CapsLock,
            Key::F1,
            Key::F2,
            Key::F3,
            Key::F4,
            Key::F5,
            Key::F6,
            Key::F7,
            Key::F8,
            Key::F9,
            Key::F10,
            Key::F11,
            Key::F12,
            Key::PrintScreen,
            Key::ScrollLock,
            Key::PauseBreak,
            Key::Insert,
            Key::Home,
            Key::PageUp,
            Key::Del,
            Key::End,
            Key::PageDown,
            Key::ArrowRight,
            Key::ArrowLeft,
            Key::ArrowBottom,
            Key::ArrowTop,
            Key::NumLock,
            Key::NumSlash,
            Key::NumAsterisk,
            Key::NumMinus,
            Key::NumPlus,
            Key::NumEnter,
            Key::Num1,
            Key::Num2,
            Key::Num3,
            Key::Num4,
            Key::Num5,
            Key::Num6,
            Key::Num7,
            Key::Num8,
            Key::Num9,
            Key::Num0,
            Key::NumDot,
            Key::IntlBackslash,
            Key::Menu,
            Key::AbntSlash,
            Key::CtrlLeft,
            Key::ShiftLeft,
            Key::AltLeft,
            Key::WinLeft,
            Key::CtrlRight,
            Key::ShiftRight,
            Key::AltRight,
            Key::WinRight,
        ]
    }
}

/// A coarse family of keys, for operations on many keys at once.
#[derive(Clone, Copy, Debug, PartialEq, Eq, Structural)]
pub enum KeyGroup {
    Logo,
    Indicators,
    Multimedia,
    GKeys,
    FKeys,
    Modifiers,
    Functions,
    Arrows,
    Numeric,
    Keys,
}

impl KeyGroup {
    /// The code that stands for the value on the wire.
    pub open spec fn spec_code(self) -> u8 {
        match self {
            KeyGroup::Logo => 0,
            KeyGroup::Indicators => 1,
            KeyGroup::Multimedia => 2,
            KeyGroup::GKeys => 3,
            KeyGroup::FKeys => 4,
            KeyGroup::Modifiers => 5,
            KeyGroup::Functions => 6,
            KeyGroup::Arrows => 7,
            KeyGroup::Numeric => 8,
            KeyGroup::Keys => 9,
        }
    }

    /// Position of the group in the declaration, from 0.
    #[verifier::when_used_as_spec(spec_code)]
    pub fn code(self) -> (code: u8)
        ensures
            code == self.spec_code(),
    {
        match self {
            KeyGroup::Logo => 0,
            KeyGroup::Indicators => 1,
            KeyGroup::Multimedia => 2,
            KeyGroup::GKeys => 3,
            KeyGroup::FKeys => 4,
            KeyGroup::Modifiers => 5,
            KeyGroup::Functions => 6,
            KeyGroup::Arrows => 7,
            KeyGroup::Numeric => 8,
            KeyGroup::Keys => 9,
        }
    }

    /// Every group, in declaration order.
    pub open spec fn spec_all() -> Seq<KeyGroup> {
        seq![
            KeyGroup::Logo,
            KeyGroup::Indicators,
            KeyGroup::Multimedia,
            KeyGroup::GKeys,
            KeyGroup::FKeys,
            KeyGroup::Modifiers,
            KeyGroup::Functions,
            KeyGroup::Arrows,
            KeyGroup::Numeric,
            KeyGroup::Keys,
        ]
    }

    /// Every group, in declaration order.
    pub fn all() -> (groups: Vec<KeyGroup>)
        ensures
            groups@ == KeyGroup::spec_all(),
    {
        vec![
            KeyGroup::Logo,
            KeyGroup::Indicators,
            KeyGroup::Multimedia,
            KeyGroup::GKeys,
            KeyGroup::FKeys,
            KeyGroup::Modifiers,
            KeyGroup::Functions,
            KeyGroup::Arrows,
            KeyGroup::Numeric,
            KeyGroup::Keys,
        ]
    }

    /// The keys of a group: those whose address group equals the group's
    /// code, in ascending order of scan code.
    pub open spec fn spec_keys(self) -> Seq<Key> {
        Key::spec_all().filter(|key: Key| key.spec_group() == self.spec_code())
    }

    /// The keys of the group.
    pub fn keys(self) -> (keys: Vec<Key>)
        ensures
            keys@ == self.spec_keys(),
    {
        let all = Key::all();
        let code = self.code();
        let ghost member = |key: Key| key.spec_group() == self.spec_code();
        let mut keys: Vec<Key> = Vec::new();
        let mut i: usize = 0;
        while i < all.len()
            invariant
                i <= all.len(),
                code == self.spec_code(),
                member == (|key: Key| key.spec_group() == self.spec_code()),
                keys@ == all@.take(i as int).filter(member),
            decreases all.len() - i,
        {
            let key = all[i];
            proof {
                assert(all@.take(i + 1) == all@.take(i as int).push(key));
                all@.take(i as int).lemma_filter_push(key, member);
            }
            if key.group() == code {
                keys.push(key);
            }
            i += 1;
        }
        proof {
            assert(all@.take(all.len() as int) == all@);
        }
        keys
    }
}

/// One lighting request: a key and the colour it takes.
#[derive(Clone, Copy, Debug, PartialEq, Eq, Structural)]
pub struct KeyValue {
    pub key: Key,
    pub color: Color,
}

/// What is known of an attached keyboard.
#[derive(Clone, Debug)]
pub struct DeviceInfo {
    pub vendor_id: u16,
    pub product_id: u16,
    pub manufacturer: Option<String>,
    pub product: Option<String>,
    pub serial_number: Option<String>,
    pub model: KeyboardModel,
}

impl StartupMode {
    /// The name of the value, as profiles and command lines write it.
    pub open spec fn spec_name(self) -> Seq<char> {
        match self {
            StartupMode::Wave => "wave"@,
            StartupMode::Color => "color"@,
        }
    }

    /// The name of the mode, as profiles and command lines write it.
    pub fn name(self) -> (name: &'static str)
        ensures
            name@ == self.spec_name(),
    {
        match self {
            StartupMode::Wave => "wave",
            StartupMode::Color => "color",
        }
    }
}

impl OnBoardMode {
    /// The name of the value, as profiles and command lines write it.
    pub open spec fn spec_name(self) -> Seq<char> {
        match self {
            OnBoardMode::Board => "board"@,
            OnBoardMode::Software => "software"@,
        }
    }

    /// The name of the mode, as profiles and command lines write it.
    pub fn name(self) -> (name: &'static str)
        ensures
            name@ == self.spec_name(),
    {
        match self {
            OnBoardMode::Board => "board",
            OnBoardMode::Software => "software",
        }
    }
}

impl KeyGroup {
    /// The name of the value, as profiles and command lines write it.
    pub open spec fn spec_name(self) -> Seq<char> {
        match self {
            KeyGroup::Logo => "logo"@,
            KeyGroup::Indicators => "indicators"@,
            KeyGroup::Multimedia => "multimedia"@,
            KeyGroup::GKeys => "g-keys"@,
            KeyGroup::FKeys => "f-keys"@,
            KeyGroup::Modifiers => "modifiers"@,
            KeyGroup::Functions => "functions"@,
            KeyGroup::Arrows => "arrows"@,
            KeyGroup::Numeric => "numeric"@,
            KeyGroup::Keys => "keys"@,
        }
    }

    /// The name of the group, as profiles and command lines write it.
    pub fn name(self) -> (name: &'static str)
        ensures
            name@ == self.spec_name(),
    {
        match self {
            KeyGroup::Logo => "logo",
            KeyGroup::Indicators => "indicators",
            KeyGroup::Multimedia => "multimedia",
            KeyGroup::GKeys => "g-keys",
            KeyGroup::FKeys => "f-keys",
            KeyGroup::Modifiers => "modifiers",
            KeyGroup::Functions => "functions",
            KeyGroup::Arrows => "arrows",
            KeyGroup::Numeric => "numeric",
            KeyGroup::Keys => "keys",
        }
    }
}

} // verus!

verus! {

/// No two keys have one scan code.
pub proof fn lemma_key_codes_differ(a: Key, b: Key)
    requires
        a.spec_code() == b.spec_code(),
    ensures
        a == b,
{
}

/// The list of all keys holds every key.
pub proof fn lemma_all_keys_listed(key: Key)
    ensures
        Key::spec_all().contains(key),
{
    let all = Key::spec_all();
    match key {
        Key::Logo => {
            assert(all[0] == key);
        },
        Key::Logo2 => {
            assert(all[1] == key);
        },
        Key::Backlight => {
            assert(all[2] == key);
        },
        Key::Game => {
            assert(all[3] == key);
        },
        Key::Caps => {
            assert(all[4] == key);
        },
        Key::Scroll => {
            assert(all[5] == key);
        },
        Key::Num => {
            assert(all[6] == key);
        },
        Key::Next => {
            assert(all[7] == key);
        },
        Key::Prev => {
            assert(all[8] == key);
        },
        Key::Stop => {
            assert(all[9] == key);
        },
        Key::Play => {
            assert(all[10] == key);
        },
        Key::Mute => {
            assert(all[11] == key);
        },
        Key::G1 => {
            assert(all[12] == key);
        },
        Key::G2 => {
            assert(all[13] == key);
        },
        Key::G3 => {
            assert(all[14] == key);
        },
        Key::G4 => {
            assert(all[15] == key);
        },
        Key::G5 => {
            assert(all[16] == key);
        },
        Key::G6 => {
            assert(all[17] == key);
        },
        Key::G7 => {
            assert(all[18] == key);
        },
        Key::G8 => {
            assert(all[19] == key);
        },
        Key::G9 => {
            assert(all[20] == key);
        },
        Key::A => {
            assert(all[21] == key);
        },
        Key::B => {
            assert(all[22] == key);
        },
        Key::C => {
            assert(all[23] == key);
        },
        Key::D => {
            assert(all[24] == key);
        },
        Key::E => {
            assert(all[25] == key);
        },
        Key::F => {
            assert(all[26] == key);
        },
        Key::G => {
            assert(all[27] == key);
        },
        Key::H => {
            assert(all[28] == key);
        },
        Key::I => {
            assert(all[29] == key);
        },
        Key::J => {
            assert(all[30] == key);
        },
        Key::K => {
            assert(all[31] == key);
        },
        Key::L => {
            assert(all[32] == key);
        },
        Key::M => {
            assert(all[33] == key);
        },
        Key::N => {
            assert(all[34] == key);
        },
        Key::O => {
            assert(all[35] == key);
        },
        Key::P => {
            assert(all[36] == key);
        },
        Key::Q => {
            assert(all[37] == key);
        },
        Key::R => {
            assert(all[38] == key);
        },
        Key::S => {
            assert(all[39] == key);
        },
        Key::T => {
            assert(all[40] == key);
        },
        Key::U => {
            assert(all[41] == key);
        },
        Key::V => {
            assert(all[42] == key);
        },
        Key::W => {
            assert(all[43] == key);
        },
        Key::X => {
            assert(all[44] == key);
        },
        Key::Y => {
            assert(all[45] == key);
        },
        Key::Z => {
            assert(all[46] == key);
        },
        Key::N1 => {
            assert(all[47] == key);
        },
        Key::N2 => {
            assert(all[48] == key);
        },
        Key::N3 => {
            assert(all[49] == key);
        },
        Key::N4 => {
            assert(all[50] == key);
        },
        Key::N5 => {
            assert(all[51] == key);
        },
        Key::N6 => {
            assert(all[52] == key);
        },
        Key::N7 => {
            assert(all[53] == key);
        },
        Key::N8 => {
            assert(all[54] == key);
        },
        Key::N9 => {
            assert(all[55] == key);
        },
        Key::N0 => {
            assert(all[56] == key);
        },
        Key::Enter => {
            assert(all[57] == key);
        },
        Key::Esc => {
            assert(all[58] == key);
        },
        Key::Backspace => {
            assert(all[59] == key);
        },
        Key::Tab => {
            assert(all[60] == key);
        },
        Key::Space => {
            assert(all[61] == key);
        },
        Key::Minus => {
            assert(all[62] == key);
        },
        Key::Equal => {
            assert(all[63] == key);
        },
        Key::OpenBracket => {
            assert(all[64] == key);
        },
        Key::CloseBracket => {
            assert(all[65] == key);
        },
        Key::Backslash => {
            assert(all[66] == key);
        },
        Key::Dollar => {
            assert(all[67] == key);
        },
        Key::Semicolon => {
            assert(all[68] == key);
        },
        Key::Quote => {
            assert(all[69] == key);
        },
        Key::Tilde => {
            assert(all[70] == key);
        },
        Key::Comma => {
            assert(all[71] == key);
        },
        Key::Period => {
            assert(all[72] == key);
        },
        Key::Slash => {
            assert(all[73] == key);
        },
        Key::CapsLock => {
            assert(all[74] == key);
        },
        Key::F1 => {
            assert(all[75] == key);
        },
        Key::F2 => {
            assert(all[76] == key);
        },
        Key::F3 => {
            assert(all[77] == key);
        },
        Key::F4 => {
            assert(all[78] == key);
        },
        Key::F5 => {
            assert(all[79] == key);
        },
        Key::F6 => {
            assert(all[80] == key);
        },
        Key::F7 => {
            assert(all[81] == key);
        },
        Key::F8 => {
            assert(all[82] == key);
        },
        Key::F9 => {
            assert(all[83] == key);
        },
        Key::F10 => {
            assert(all[84] == key);
        },
        Key::F11 => {
            assert(all[85] == key);
        },
        Key::F12 => {
            assert(all[86] == key);
        },
        Key::PrintScreen => {
            assert(all[87] == key);
        },
        Key::ScrollLock => {
            assert(all[88] == key);
        },
        Key::PauseBreak => {
            assert(all[89] == key);
        },
        Key::Insert => {
            assert(all[90] == key);
        },
        Key::Home => {
            assert(all[91] == key);
        },
        Key::PageUp => {
            assert(all[92] == key);
        },
        Key::Del => {
            assert(all[93] == key);
        },
        Key::End => {
            assert(all[94] == key);
        },
        Key::PageDown => {
            assert(all[95] == key);
        },
        Key::ArrowRight => {
            assert(all[96] == key);
        },
        Key::ArrowLeft => {
            assert(all[97] == key);
        },
        Key::ArrowBottom => {
            assert(all[98] == key);
        },
        Key::ArrowTop => {
            assert(all[99] == key);
        },
        Key::NumLock => {
            assert(all[100] == key);
        },
        Key::NumSlash => {
            assert(all[101] == key);
        },
        Key::NumAsterisk => {
            assert(all[102] == key);
        },
        Key::NumMinus => {
            assert(all[103] == key);
        },
        Key::NumPlus => {
            assert(all[104] == key);
        },
        Key::NumEnter => {
            assert(all[105] == key);
        },
        Key::Num1 => {
            assert(all[106] == key);
        },
        Key::Num2 => {
            assert(all[107] == key);
        },
        Key::Num3 => {
            assert(all[108] == key);
        },
        Key::Num4 => {
            assert(all[109] == key);
        },
        Key::Num5 => {
            assert(all[110] == key);
        },
        Key::Num6 => {
            assert(all[111] == key);
        },
        Key::Num7 => {
            assert(all[112] == key);
        },
        Key::Num8 => {
            assert(all[113] == key);
        },
        Key::Num9 => {
            assert(all[114] == key);
        },
        Key::Num0 => {
            assert(all[115] == key);
        },
        Key::NumDot => {
            assert(all[116] == key);
        },
        Key::IntlBackslash => {
            assert(all[117] == key);
        },
        Key::Menu => {
            assert(all[118] == key);
        },
        Key::AbntSlash => {
            assert(all[119] == key);
        },
        Key::CtrlLeft => {
            assert(all[120] == key);
        },
        Key::ShiftLeft => {
            assert(all[121] == key);
        },
        Key::AltLeft => {
            assert(all[122] == key);
        },
        Key::WinLeft => {
            assert(all[123] == key);
        },
        Key::CtrlRight => {
            assert(all[124] == key);
        },
        Key::ShiftRight => {
            assert(all[125] == key);
        },
        Key::AltRight => {
            assert(all[126] == key);
        },
        Key::WinRight => {
            assert(all[127] == key);
        },
    }
}

impl Key {
    /// The key that a scan code stands for.
    pub open spec fn spec_from_code(code: u16) -> Option<Key> {
        if exists|key: Key| key.spec_code() == code {
            Some(choose|key: Key| key.spec_code() == code)
        } else {
            None
        }
    }

    /// The key with the given scan code; `None` for a code that no key has.
    pub fn from_code(code: u16) -> (key: Option<Key>)
        ensures
            key == Key::spec_from_code(code),
            key matches Some(found) ==> found.spec_code() == code,
            key is None ==> forall|other: Key| other.spec_code() != code,
    {
        let all = Key::all();
        let mut i: usize = 0;
        while i < all.len()
            invariant
                i <= all.len(),
                all@ == Key::spec_all(),
                forall|j: int| 0 <= j < i ==> (#[trigger] all@[j]).spec_code() != code,
            decreases all.len() - i,
        {
            let key = all[i];
            if key.code() == code {
                proof {
                    let chosen = choose|other: Key| other.spec_code() == code;
                    lemma_key_codes_differ(chosen, key);
                }
                return Some(key);
            }
            i += 1;
        }
        proof {
            assert forall|other: Key| other.spec_code() != code by {
                lemma_all_keys_listed(other);
                let j = choose|j: int| 0 <= j < all@.len() && all@[j] == other;
                assert(all@[j].spec_code() != code);
            }
        }
        None
    }
}

/// A key is found again by its scan code.
pub proof fn lemma_key_code_round_trip(key: Key)
    ensures
        Key::spec_from_code(key.spec_code()) == Some(key),
{
    let chosen = choose|other: Key| other.spec_code() == key.spec_code();
    lemma_key_codes_differ(chosen, key);
}

} // verus!
