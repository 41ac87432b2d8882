//! The texts that name keys, groups, colours, periods, effects, modes and
//! numbers.

use crate::colors::{color_table, spec_color_table};
use crate::effects::{NativeEffect, NativeEffectPart, NativeEffectStorage};
use crate::text::{
    lemma_lookup_at, lookup, lower, lower_char, parse_unsigned, spec_digits_value, spec_lookup,
    spec_lower, spec_lower_char, spec_parse_unsigned, spec_strip_leading, spec_trim,
    spec_trim_start, strip_leading, table_view, to_chars, trim,
};
use crate::types::{Color, Key, KeyGroup, OnBoardMode, Period, StartupMode};
use vstd::prelude::*;
use vstd::slice::slice_subrange;

verus! {

/// A text with its ASCII capitals in lower case.
pub fn ascii_lower(input: &str) -> (lowered: Vec<char>)
    ensures
        lowered@ == spec_lower(input@),
{
    let chars = to_chars(input);
    lower(chars.as_slice())
}

/// Looks a name up in a table, whatever the case of its ASCII letters.
fn lookup_lower<V: Copy>(table: &[(&'static str, V)], name: &[char]) -> (value: Option<V>)
    ensures
        value == spec_lookup(table_view(table@), spec_lower(name@)),
{
    let lowered = lower(name);
    lookup(table, lowered.as_slice())
}

/// The names of the start-up modes.
pub open spec fn spec_startup_mode_table() -> Seq<(Seq<char>, StartupMode)> {
    seq![("wave"@, StartupMode::Wave), ("color"@, StartupMode::Color)]
}

/// The start-up mode of a name, whatever the case of its ASCII letters.
pub open spec fn spec_parse_startup_mode(s: Seq<char>) -> Option<StartupMode> {
    spec_lookup(spec_startup_mode_table(), spec_lower(s))
}

/// Parse a start-up mode from its characters.
pub fn parse_startup_mode_chars(s: &[char]) -> (mode: Option<StartupMode>)
    ensures
        mode == spec_parse_startup_mode(s@),
{
    let table = [("wave", StartupMode::Wave), ("color", StartupMode::Color)];
    assert(table_view(table@) =~= spec_startup_mode_table());
    lookup_lower(table.as_slice(), s)
}

/// Parse a start-up mode: `wave` or `color`.
pub fn parse_startup_mode(s: &str) -> (mode: Option<StartupMode>)
    ensures
        mode == spec_parse_startup_mode(s@),
{
    let chars = to_chars(s);
    parse_startup_mode_chars(chars.as_slice())
}

/// The names of the on-board modes.
pub open spec fn spec_board_mode_table() -> Seq<(Seq<char>, OnBoardMode)> {
    seq![("board"@, OnBoardMode::Board), ("software"@, OnBoardMode::Software)]
}

/// The on-board mode of a name, whatever the case of its ASCII letters.
pub open spec fn spec_parse_board_mode(s: Seq<char>) -> Option<OnBoardMode> {
    spec_lookup(spec_board_mode_table(), spec_lower(s))
}

/// Parse an on-board mode from its characters.
pub fn parse_board_mode_chars(s: &[char]) -> (mode: Option<OnBoardMode>)
    ensures
        mode == spec_parse_board_mode(s@),
{
    let table = [("board", OnBoardMode::Board), ("software", OnBoardMode::Software)];
    assert(table_view(table@) =~= spec_board_mode_table());
    lookup_lower(table.as_slice(), s)
}

/// Parse an on-board mode: `board` or `software`.
pub fn parse_board_mode(s: &str) -> (mode: Option<OnBoardMode>)
    ensures
        mode == spec_parse_board_mode(s@),
{
    let chars = to_chars(s);
    parse_board_mode_chars(chars.as_slice())
}

/// The byte that two hexadecimal digits write.
pub open spec fn spec_hex_byte(s: Seq<char>) -> Option<u8> {
    match spec_parse_unsigned(s, 16, 255) {
        Some(value) => Some(value as u8),
        None => None,
    }
}

/// The colour that a text names. Case does not count and `#` signs at the
/// start are dropped. What is left is the name of a colour, or six
/// hexadecimal digits for red, green and blue, or two for a grey.
pub open spec fn spec_parse_color(s: Seq<char>) -> Option<Color> {
    let value = spec_strip_leading(spec_lower(s), '#');
    match spec_lookup(spec_color_table(), value) {
        Some(color) => Some(color),
        None => if value.len() == 6 {
            match (
                spec_hex_byte(value.subrange(0, 2)),
                spec_hex_byte(value.subrange(2, 4)),
                spec_hex_byte(value.subrange(4, 6)),
            ) {
                (Some(red), Some(green), Some(blue)) => Some(Color { red, green, blue }),
                _ => None,
            }
        } else if value.len() == 2 {
            match spec_hex_byte(value) {
                Some(grey) => Some(Color { red: grey, green: grey, blue: grey }),
                None => None,
            }
        } else {
            None
        },
    }
}

fn hex_byte(s: &[char]) -> (byte: Option<u8>)
    ensures
        byte == spec_hex_byte(s@),
{
    match parse_unsigned(s, 16, 255) {
        Some(value) => Some(value as u8),
        None => None,
    }
}

/// Parse a colour from its characters.
pub fn parse_color_chars(val: &[char]) -> (color: Option<Color>)
    ensures
        color == spec_parse_color(val@),
{
    let lowered = lower(val);
    let value = strip_leading(lowered.as_slice(), '#');
    let table = color_table();
    match lookup(table.as_slice(), value) {
        Some(color) => {
            return Some(color);
        },
        None => {},
    }
    if value.len() == 6 {
        let red = hex_byte(slice_subrange(value, 0, 2));
        let green = hex_byte(slice_subrange(value, 2, 4));
        let blue = hex_byte(slice_subrange(value, 4, 6));
        match (red, green, blue) {
            (Some(red), Some(green), Some(blue)) => Some(Color { red, green, blue }),
            _ => None,
        }
    } else if value.len() == 2 {
        match hex_byte(value) {
            Some(grey) => Some(Color { red: grey, green: grey, blue: grey }),
            None => None,
        }
    } else {
        None
    }
}

/// Parse a colour: a name, `rrggbb`, or `rr` for a grey, with or without `#`
/// in front.
pub fn parse_color(val: &str) -> (color: Option<Color>)
    ensures
        color == spec_parse_color(val@),
{
    let chars = to_chars(val);
    parse_color_chars(chars.as_slice())
}

/// The names of the key groups.
pub open spec fn spec_key_group_table() -> Seq<(Seq<char>, KeyGroup)> {
    seq![
        ("logo"@, KeyGroup::Logo),
        ("indicators"@, KeyGroup::Indicators),
        ("multimedia"@, KeyGroup::Multimedia),
        ("gkeys"@, KeyGroup::GKeys),
        ("g-keys"@, KeyGroup::GKeys),
        ("fkeys"@, KeyGroup::FKeys),
        ("f-keys"@, KeyGroup::FKeys),
        ("modifiers"@, KeyGroup::Modifiers),
        ("functions"@, KeyGroup::Functions),
        ("arrows"@, KeyGroup::Arrows),
        ("numeric"@, KeyGroup::Numeric),
        ("keys"@, KeyGroup::Keys),
    ]
}

/// A text with `-` for every `_`.
pub open spec fn spec_dashes(s: Seq<char>) -> Seq<char> {
    s.map_values(
        |c: char|
            if c == '_' {
                '-'
            } else {
                c
            },
    )
}

/// The key group that a text names: white space around it, the case of its
/// letters and the choice between `_` and `-` do not count.
pub open spec fn spec_parse_key_group(s: Seq<char>) -> Option<KeyGroup> {
    spec_lookup(spec_key_group_table(), spec_dashes(spec_lower(spec_trim(s))))
}

/// Parse the name of a key group from its characters.
pub fn parse_key_group_chars(s: &[char]) -> (group: Option<KeyGroup>)
    ensures
        group == spec_parse_key_group(s@),
{
    let table = [
        ("logo", KeyGroup::Logo),
        ("indicators", KeyGroup::Indicators),
        ("multimedia", KeyGroup::Multimedia),
        ("gkeys", KeyGroup::GKeys),
        ("g-keys", KeyGroup::GKeys),
        ("fkeys", KeyGroup::FKeys),
        ("f-keys", KeyGroup::FKeys),
        ("modifiers", KeyGroup::Modifiers),
        ("functions", KeyGroup::Functions),
        ("arrows", KeyGroup::Arrows),
        ("numeric", KeyGroup::Numeric),
        ("keys", KeyGroup::Keys),
    ];
    assert(table_view(table@) =~= spec_key_group_table());
    let trimmed = trim(s);
    let mut name: Vec<char> = Vec::new();
    let mut i: usize = 0;
    while i < trimmed.len()
        invariant
            i <= trimmed.len(),
            name@ == spec_dashes(spec_lower(trimmed@.take(i as int))),
        decreases trimmed.len() - i,
    {
        let c = lower_char(trimmed[i]);
        name.push(
            if c == '_' {
                '-'
            } else {
                c
            },
        );
        assert(name@ =~= spec_dashes(spec_lower(trimmed@.take(i + 1))));
        i += 1;
    }
    proof {
        assert(trimmed@.take(trimmed.len() as int) == trimmed@);
    }
    lookup(table.as_slice(), name.as_slice())
}

/// Parse the name of a key group.
pub fn parse_key_group(s: &str) -> (group: Option<KeyGroup>)
    ensures
        group == spec_parse_key_group(s@),
{
    let chars = to_chars(s);
    parse_key_group_chars(chars.as_slice())
}


/// Every name and alias of a key, in lower case.
pub open spec fn spec_key_table() -> Seq<(Seq<char>, Key)> {
    seq![
        ("logo"@, Key::Logo),
        ("logo2"@, Key::Logo2),
        ("backlight"@, Key::Backlight),
        ("back_light"@, Key::Backlight),
        ("light"@, Key::Backlight),
        ("game"@, Key::Game),
        ("gamemode"@, Key::Game),
        ("game_mode"@, Key::Game),
        ("caps"@, Key::Caps),
        ("capsindicator"@, Key::Caps),
        ("caps_indicator"@, Key::Caps),
        ("scroll"@, Key::Scroll),
        ("scrollindicator"@, Key::Scroll),
        ("scroll_indicator"@, Key::Scroll),
        ("num"@, Key::Num),
        ("numindicator"@, Key::Num),
        ("num_indicator"@, Key::Num),
        ("next"@, Key::Next),
        ("prev"@, Key::Prev),
        ("previous"@, Key::Prev),
        ("stop"@, Key::Stop),
        ("play"@, Key::Play),
        ("playpause"@, Key::Play),
        ("play_pause"@, Key::Play),
        ("mute"@, Key::Mute),
        ("f1"@, Key::F1),
        ("f2"@, Key::F2),
        ("f3"@, Key::F3),
        ("f4"@, Key::F4),
        ("f5"@, Key::F5),
        ("f6"@, Key::F6),
        ("f7"@, Key::F7),
        ("f8"@, Key::F8),
        ("f9"@, Key::F9),
        ("f10"@, Key::F10),
        ("f11"@, Key::F11),
        ("f12"@, Key::F12),
        ("arrowright"@, Key::ArrowRight),
        ("right"@, Key::ArrowRight),
        ("arrowleft"@, Key::ArrowLeft),
        ("left"@, Key::ArrowLeft),
        ("arrowtop"@, Key::ArrowTop),
        ("up"@, Key::ArrowTop),
        ("arrowbottom"@, Key::ArrowBottom),
        ("down"@, Key::ArrowBottom),
        ("insert"@, Key::Insert),
        ("home"@, Key::Home),
        ("pageup"@, Key::PageUp),
        ("page_up"@, Key::PageUp),
        ("pgup"@, Key::PageUp),
        ("delete"@, Key::Del),
        ("del"@, Key::Del),
        ("end"@, Key::End),
        ("pagedown"@, Key::PageDown),
        ("page_down"@, Key::PageDown),
        ("pgdn"@, Key::PageDown),
        ("numlock"@, Key::NumLock),
        ("num_lock"@, Key::NumLock),
        ("num_lock_key"@, Key::NumLock),
        ("num/"@, Key::NumSlash),
        ("numslash"@, Key::NumSlash),
        ("num_slash"@, Key::NumSlash),
        ("numasterisk"@, Key::NumAsterisk),
        ("num*"@, Key::NumAsterisk),
        ("num-"@, Key::NumMinus),
        ("numplus"@, Key::NumPlus),
        ("num+"@, Key::NumPlus),
        ("numenter"@, Key::NumEnter),
        ("num_enter"@, Key::NumEnter),
        ("num1"@, Key::Num1),
        ("num2"@, Key::Num2),
        ("num3"@, Key::Num3),
        ("num4"@, Key::Num4),
        ("num5"@, Key::Num5),
        ("num6"@, Key::Num6),
        ("num7"@, Key::Num7),
        ("num8"@, Key::Num8),
        ("num9"@, Key::Num9),
        ("num0"@, Key::Num0),
        ("numdot"@, Key::NumDot),
        ("num."@, Key::NumDot),
        ("g1"@, Key::G1),
        ("g2"@, Key::G2),
        ("g3"@, Key::G3),
        ("g4"@, Key::G4),
        ("g5"@, Key::G5),
        ("g6"@, Key::G6),
        ("g7"@, Key::G7),
        ("g8"@, Key::G8),
        ("g9"@, Key::G9),
        ("~"@, Key::Tilde),
        ("-"@, Key::Minus),
        ("="@, Key::Equal),
        ("["@, Key::OpenBracket),
        ("]"@, Key::CloseBracket),
        ("\\"@, Key::Backslash),
        (";"@, Key::Semicolon),
        ("\""@, Key::Quote),
        ("$"@, Key::Dollar),
        (","@, Key::Comma),
        ("."@, Key::Period),
        ("/"@, Key::Slash),
        ("enter"@, Key::Enter),
        ("return"@, Key::Enter),
        ("enter_key"@, Key::Enter),
        ("esc"@, Key::Esc),
        ("escape"@, Key::Esc),
        ("escape_key"@, Key::Esc),
        ("backspace"@, Key::Backspace),
        ("tab"@, Key::Tab),
        ("space"@, Key::Space),
        ("capslock"@, Key::CapsLock),
        ("caps_lock"@, Key::CapsLock),
        ("printscreen"@, Key::PrintScreen),
        ("print"@, Key::PrintScreen),
        ("print_screen"@, Key::PrintScreen),
        ("scroll_lock"@, Key::ScrollLock),
        ("scrolllock"@, Key::ScrollLock),
        ("pause"@, Key::PauseBreak),
        ("pause_break"@, Key::PauseBreak),
        ("intlbackslash"@, Key::IntlBackslash),
        ("menu"@, Key::Menu),
        ("abntslash"@, Key::AbntSlash),
        ("ctrlleft"@, Key::CtrlLeft),
        ("lctrl"@, Key::CtrlLeft),
        ("leftctrl"@, Key::CtrlLeft),
        ("controlleft"@, Key::CtrlLeft),
        ("shiftleft"@, Key::ShiftLeft),
        ("lshift"@, Key::ShiftLeft),
        ("leftshift"@, Key::ShiftLeft),
        ("altleft"@, Key::AltLeft),
        ("lalt"@, Key::AltLeft),
        ("leftalt"@, Key::AltLeft),
        ("winleft"@, Key::WinLeft),
        ("lwin"@, Key::WinLeft),
        ("ctrlright"@, Key::CtrlRight),
        ("rctrl"@, Key::CtrlRight),
        ("rightctrl"@, Key::CtrlRight),
        ("controlright"@, Key::CtrlRight),
        ("shiftright"@, Key::ShiftRight),
        ("rshift"@, Key::ShiftRight),
        ("rightshift"@, Key::ShiftRight),
        ("altright"@, Key::AltRight),
        ("ralt"@, Key::AltRight),
        ("rightalt"@, Key::AltRight),
        ("winright"@, Key::WinRight),
        ("rwin"@, Key::WinRight),
        ("a"@, Key::A),
        ("b"@, Key::B),
        ("c"@, Key::C),
        ("d"@, Key::D),
        ("e"@, Key::E),
        ("f"@, Key::F),
        ("g"@, Key::G),
        ("h"@, Key::H),
        ("i"@, Key::I),
        ("j"@, Key::J),
        ("k"@, Key::K),
        ("l"@, Key::L),
        ("m"@, Key::M),
        ("n"@, Key::N),
        ("o"@, Key::O),
        ("p"@, Key::P),
        ("q"@, Key::Q),
        ("r"@, Key::R),
        ("s"@, Key::S),
        ("t"@, Key::T),
        ("u"@, Key::U),
        ("v"@, Key::V),
        ("w"@, Key::W),
        ("x"@, Key::X),
        ("y"@, Key::Y),
        ("z"@, Key::Z),
        ("1"@, Key::N1),
        ("2"@, Key::N2),
        ("3"@, Key::N3),
        ("4"@, Key::N4),
        ("5"@, Key::N5),
        ("6"@, Key::N6),
        ("7"@, Key::N7),
        ("8"@, Key::N8),
        ("9"@, Key::N9),
        ("0"@, Key::N0),
    ]
}

/// The table of the names and aliases of the keys.
pub fn key_table() -> (table: Vec<(&'static str, Key)>)
    ensures
        table_view(table@) == spec_key_table(),
{
    let table = vec![
        ("logo", Key::Logo),
        ("logo2", Key::Logo2),
        ("backlight", Key::Backlight),
        ("back_light", Key::Backlight),
        ("light", Key::Backlight),
        ("game", Key::Game),
        ("gamemode", Key::Game),
        ("game_mode", Key::Game),
        ("caps", Key::Caps),
        ("capsindicator", Key::Caps),
        ("caps_indicator", Key::Caps),
        ("scroll", Key::Scroll),
        ("scrollindicator", Key::Scroll),
        ("scroll_indicator", Key::Scroll),
        ("num", Key::Num),
        ("numindicator", Key::Num),
        ("num_indicator", Key::Num),
        ("next", Key::Next),
        ("prev", Key::Prev),
        ("previous", Key::Prev),
        ("stop", Key::Stop),
        ("play", Key::Play),
        ("playpause", Key::Play),
        ("play_pause", Key::Play),
        ("mute", Key::Mute),
        ("f1", Key::F1),
        ("f2", Key::F2),
        ("f3", Key::F3),
        ("f4", Key::F4),
        ("f5", Key::F5),
        ("f6", Key::F6),
        ("f7", Key::F7),
        ("f8", Key::F8),
        ("f9", Key::F9),
        ("f10", Key::F10),
        ("f11", Key::F11),
        ("f12", Key::F12),
        ("arrowright", Key::ArrowRight),
        ("right", Key::ArrowRight),
        ("arrowleft", Key::ArrowLeft),
        ("left", Key::ArrowLeft),
        ("arrowtop", Key::ArrowTop),
        ("up", Key::ArrowTop),
        ("arrowbottom", Key::ArrowBottom),
        ("down", Key::ArrowBottom),
        ("insert", Key::Insert),
        ("home", Key::Home),
        ("pageup", Key::PageUp),
        ("page_up", Key::PageUp),
        ("pgup", Key::PageUp),
        ("delete", Key::Del),
        ("del", Key::Del),
        ("end", Key::End),
        ("pagedown", Key::PageDown),
        ("page_down", Key::PageDown),
        ("pgdn", Key::PageDown),
        ("numlock", Key::NumLock),
        ("num_lock", Key::NumLock),
        ("num_lock_key", Key::NumLock),
        ("num/", Key::NumSlash),
        ("numslash", Key::NumSlash),
        ("num_slash", Key::NumSlash),
        ("numasterisk", Key::NumAsterisk),
        ("num*", Key::NumAsterisk),
        ("num-", Key::NumMinus),
        ("numplus", Key::NumPlus),
        ("num+", Key::NumPlus),
        ("numenter", Key::NumEnter),
        ("num_enter", Key::NumEnter),
        ("num1", Key::Num1),
        ("num2", Key::Num2),
        ("num3", Key::Num3),
        ("num4", Key::Num4),
        ("num5", Key::Num5),
        ("num6", Key::Num6),
        ("num7", Key::Num7),
        ("num8", Key::Num8),
        ("num9", Key::Num9),
        ("num0", Key::Num0),
        ("numdot", Key::NumDot),
        ("num.", Key::NumDot),
        ("g1", Key::G1),
        ("g2", Key::G2),
        ("g3", Key::G3),
        ("g4", Key::G4),
        ("g5", Key::G5),
        ("g6", Key::G6),
        ("g7", Key::G7),
        ("g8", Key::G8),
        ("g9", Key::G9),
        ("~", Key::Tilde),
        ("-", Key::Minus),
        ("=", Key::Equal),
        ("[", Key::OpenBracket),
        ("]", Key::CloseBracket),
        ("\\", Key::Backslash),
        (";", Key::Semicolon),
        ("\"", Key::Quote),
        ("$", Key::Dollar),
        (",", Key::Comma),
        (".", Key::Period),
        ("/", Key::Slash),
        ("enter", Key::Enter),
        ("return", Key::Enter),
        ("enter_key", Key::Enter),
        ("esc", Key::Esc),
        ("escape", Key::Esc),
        ("escape_key", Key::Esc),
        ("backspace", Key::Backspace),
        ("tab", Key::Tab),
        ("space", Key::Space),
        ("capslock", Key::CapsLock),
        ("caps_lock", Key::CapsLock),
        ("printscreen", Key::PrintScreen),
        ("print", Key::PrintScreen),
        ("print_screen", Key::PrintScreen),
        ("scroll_lock", Key::ScrollLock),
        ("scrolllock", Key::ScrollLock),
        ("pause", Key::PauseBreak),
        ("pause_break", Key::PauseBreak),
        ("intlbackslash", Key::IntlBackslash),
        ("menu", Key::Menu),
        ("abntslash", Key::AbntSlash),
        ("ctrlleft", Key::CtrlLeft),
        ("lctrl", Key::CtrlLeft),
        ("leftctrl", Key::CtrlLeft),
        ("controlleft", Key::CtrlLeft),
        ("shiftleft", Key::ShiftLeft),
        ("lshift", Key::ShiftLeft),
        ("leftshift", Key::ShiftLeft),
        ("altleft", Key::AltLeft),
        ("lalt", Key::AltLeft),
        ("leftalt", Key::AltLeft),
        ("winleft", Key::WinLeft),
        ("lwin", Key::WinLeft),
        ("ctrlright", Key::CtrlRight),
        ("rctrl", Key::CtrlRight),
        ("rightctrl", Key::CtrlRight),
        ("controlright", Key::CtrlRight),
        ("shiftright", Key::ShiftRight),
        ("rshift", Key::ShiftRight),
        ("rightshift", Key::ShiftRight),
        ("altright", Key::AltRight),
        ("ralt", Key::AltRight),
        ("rightalt", Key::AltRight),
        ("winright", Key::WinRight),
        ("rwin", Key::WinRight),
        ("a", Key::A),
        ("b", Key::B),
        ("c", Key::C),
        ("d", Key::D),
        ("e", Key::E),
        ("f", Key::F),
        ("g", Key::G),
        ("h", Key::H),
        ("i", Key::I),
        ("j", Key::J),
        ("k", Key::K),
        ("l", Key::L),
        ("m", Key::M),
        ("n", Key::N),
        ("o", Key::O),
        ("p", Key::P),
        ("q", Key::Q),
        ("r", Key::R),
        ("s", Key::S),
        ("t", Key::T),
        ("u", Key::U),
        ("v", Key::V),
        ("w", Key::W),
        ("x", Key::X),
        ("y", Key::Y),
        ("z", Key::Z),
        ("1", Key::N1),
        ("2", Key::N2),
        ("3", Key::N3),
        ("4", Key::N4),
        ("5", Key::N5),
        ("6", Key::N6),
        ("7", Key::N7),
        ("8", Key::N8),
        ("9", Key::N9),
        ("0", Key::N0),
    ];
    assert(table_view(table@) =~= spec_key_table());
    table
}

/// The key that a text names, whatever the case of its ASCII letters.
pub open spec fn spec_parse_key(s: Seq<char>) -> Option<Key> {
    spec_lookup(spec_key_table(), spec_lower(s))
}

/// Parse the name or an alias of a key from its characters.
pub fn parse_key_chars(s: &[char]) -> (key: Option<Key>)
    ensures
        key == spec_parse_key(s@),
{
    let table = key_table();
    lookup_lower(table.as_slice(), s)
}

/// Parse the name or an alias of a key.
pub fn parse_key(s: &str) -> (key: Option<Key>)
    ensures
        key == spec_parse_key(s@),
{
    let chars = to_chars(s);
    parse_key_chars(chars.as_slice())
}

/// The length of a period that a text writes, white space around it not
/// counting:
/// - a decimal number and `ms`, in either case: so many milliseconds;
/// - a decimal number and `s`, in either case: so many seconds;
/// - one or two hexadecimal digits: 256 milliseconds for each unit.
pub open spec fn spec_parse_period(s: Seq<char>) -> Option<Period> {
    let v = spec_trim(s);
    if v.len() > 0 && spec_lower_char(v.last()) == 's' {
        let number = v.drop_last();
        if number.len() > 0 && spec_lower_char(number.last()) == 'm' {
            match spec_parse_unsigned(number.drop_last(), 10, u64::MAX as nat) {
                Some(millis) => Some(Period { millis: millis as u128 }),
                None => None,
            }
        } else {
            match spec_parse_unsigned(number, 10, u64::MAX as nat) {
                Some(secs) => Some(Period { millis: (secs * 1000) as u128 }),
                None => None,
            }
        }
    } else {
        let hex = if v.len() == 1 {
            seq!['0'] + v
        } else {
            v
        };
        if hex.len() == 2 {
            match spec_digits_value(hex, 16) {
                Some(units) => Some(Period { millis: (units * 256) as u128 }),
                None => None,
            }
        } else {
            None
        }
    }
}

/// Parse the length of a period from its characters.
pub fn parse_period_chars(val: &[char]) -> (period: Option<Period>)
    ensures
        period == spec_parse_period(val@),
{
    let v = trim(val);
    let n = v.len();
    if n > 0 && lower_char(v[n - 1]) == 's' {
        let number = slice_subrange(v, 0, n - 1);
        assert(number@ == v@.drop_last());
        if n > 1 && lower_char(v[n - 2]) == 'm' {
            let digits = slice_subrange(v, 0, n - 2);
            assert(digits@ == number@.drop_last());
            return match parse_unsigned(digits, 10, u64::MAX) {
                Some(millis) => Some(Period::from_millis(millis)),
                None => None,
            };
        }
        return match parse_unsigned(number, 10, u64::MAX) {
            Some(secs) => Some(Period::from_secs(secs)),
            None => None,
        };
    }
    let mut hex: Vec<char> = Vec::new();
    if n == 1 {
        hex.push('0');
        hex.push(v[0]);
        assert(hex@ =~= seq!['0'] + v@);
    } else if n == 2 {
        hex.push(v[0]);
        hex.push(v[1]);
        assert(hex@ =~= v@);
    } else {
        return None;
    }
    proof {
        reveal_with_fuel(spec_digits_value, 3);
        assert(hex@.drop_last().drop_last() =~= Seq::empty());
        assert(hex@.drop_first() =~= seq![hex@[1]]);
        assert(seq![hex@[1]].drop_last() =~= Seq::<char>::empty());
    }
    if hex[0] == '+' {
        return None;
    }
    match parse_unsigned(hex.as_slice(), 16, 255) {
        Some(units) => Some(Period::from_millis(units * 256)),
        None => None,
    }
}

/// Parse the length of a period: `250ms`, `2s`, or a hexadecimal byte that
/// counts units of 256 milliseconds.
pub fn parse_period(val: &str) -> (period: Option<Period>)
    ensures
        period == spec_parse_period(val@),
{
    let chars = to_chars(val);
    parse_period_chars(chars.as_slice())
}

/// The names of the built-in effects.
pub open spec fn spec_native_effect_table() -> Seq<(Seq<char>, NativeEffect)> {
    seq![
        ("off"@, NativeEffect::Off),
        ("color"@, NativeEffect::Color),
        ("breathing"@, NativeEffect::Breathing),
        ("cycle"@, NativeEffect::Cycle),
        ("waves"@, NativeEffect::Waves),
        ("h-wave"@, NativeEffect::HWave),
        ("v-wave"@, NativeEffect::VWave),
        ("c-wave"@, NativeEffect::CWave),
        ("ripple"@, NativeEffect::Ripple),
    ]
}

/// The effect of a name, whatever the case of its ASCII letters.
pub open spec fn spec_parse_native_effect(s: Seq<char>) -> Option<NativeEffect> {
    spec_lookup(spec_native_effect_table(), spec_lower(s))
}

/// Parse the name of a built-in effect from its characters.
pub fn parse_native_effect_chars(s: &[char]) -> (effect: Option<NativeEffect>)
    ensures
        effect == spec_parse_native_effect(s@),
{
    let table = [
        ("off", NativeEffect::Off),
        ("color", NativeEffect::Color),
        ("breathing", NativeEffect::Breathing),
        ("cycle", NativeEffect::Cycle),
        ("waves", NativeEffect::Waves),
        ("h-wave", NativeEffect::HWave),
        ("v-wave", NativeEffect::VWave),
        ("c-wave", NativeEffect::CWave),
        ("ripple", NativeEffect::Ripple),
    ];
    assert(table_view(table@) =~= spec_native_effect_table());
    lookup_lower(table.as_slice(), s)
}

/// Parse the name of a built-in effect.
pub fn parse_native_effect(s: &str) -> (effect: Option<NativeEffect>)
    ensures
        effect == spec_parse_native_effect(s@),
{
    let chars = to_chars(s);
    parse_native_effect_chars(chars.as_slice())
}

/// The names of the parts that an effect runs on.
pub open spec fn spec_native_effect_part_table() -> Seq<(Seq<char>, NativeEffectPart)> {
    seq![
        ("all"@, NativeEffectPart::All),
        ("keys"@, NativeEffectPart::Keys),
        ("logo"@, NativeEffectPart::Logo),
    ]
}

/// The part of a name, whatever the case of its ASCII letters.
pub open spec fn spec_parse_native_effect_part(s: Seq<char>) -> Option<NativeEffectPart> {
    spec_lookup(spec_native_effect_part_table(), spec_lower(s))
}

/// Parse the part that an effect runs on from its characters.
pub fn parse_native_effect_part_chars(s: &[char]) -> (part: Option<NativeEffectPart>)
    ensures
        part == spec_parse_native_effect_part(s@),
{
    let table = [
        ("all", NativeEffectPart::All),
        ("keys", NativeEffectPart::Keys),
        ("logo", NativeEffectPart::Logo),
    ];
    assert(table_view(table@) =~= spec_native_effect_part_table());
    lookup_lower(table.as_slice(), s)
}

/// Parse the part that an effect runs on: `all`, `keys` or `logo`.
pub fn parse_native_effect_part(s: &str) -> (part: Option<NativeEffectPart>)
    ensures
        part == spec_parse_native_effect_part(s@),
{
    let chars = to_chars(s);
    parse_native_effect_part_chars(chars.as_slice())
}

/// The names of the places where an effect is kept.
pub open spec fn spec_native_effect_storage_table() -> Seq<(Seq<char>, NativeEffectStorage)> {
    seq![("none"@, NativeEffectStorage::Volatile), ("user"@, NativeEffectStorage::User)]
}

/// The storage of a name, whatever the case of its ASCII letters.
pub open spec fn spec_parse_native_effect_storage(s: Seq<char>) -> Option<NativeEffectStorage> {
    spec_lookup(spec_native_effect_storage_table(), spec_lower(s))
}

/// Parse where an effect is kept from its characters.
pub fn parse_native_effect_storage_chars(s: &[char]) -> (storage: Option<NativeEffectStorage>)
    ensures
        storage == spec_parse_native_effect_storage(s@),
{
    let table = [("none", NativeEffectStorage::Volatile), ("user", NativeEffectStorage::User)];
    assert(table_view(table@) =~= spec_native_effect_storage_table());
    lookup_lower(table.as_slice(), s)
}

/// Parse where an effect is kept: `none` or `user`.
pub fn parse_native_effect_storage(s: &str) -> (storage: Option<NativeEffectStorage>)
    ensures
        storage == spec_parse_native_effect_storage(s@),
{
    let chars = to_chars(s);
    parse_native_effect_storage_chars(chars.as_slice())
}

/// A text without `0x` at its start.
pub open spec fn spec_strip_hex_prefix(s: Seq<char>) -> Seq<char> {
    if s.len() >= 2 && s[0] == '0' && s[1] == 'x' {
        s.skip(2)
    } else {
        s
    }
}

/// The number up to `max` that a text writes: read as decimal where that
/// can be, else as hexadecimal, with or without `0x` in front.
pub open spec fn spec_parse_number(s: Seq<char>, max: nat) -> Option<nat> {
    match spec_parse_unsigned(s, 10, max) {
        Some(value) => Some(value),
        None => spec_parse_unsigned(spec_strip_hex_prefix(s), 16, max),
    }
}

fn parse_number(s: &[char], max: u64) -> (value: Option<u64>)
    ensures
        match value {
            Some(v) => spec_parse_number(s@, max as nat) == Some(v as nat),
            None => spec_parse_number(s@, max as nat) is None,
        },
{
    match parse_unsigned(s, 10, max) {
        Some(value) => {
            return Some(value);
        },
        None => {},
    }
    let hex = if s.len() >= 2 && s[0] == '0' && s[1] == 'x' {
        let hex = slice_subrange(s, 2, s.len());
        assert(hex@ =~= s@.skip(2));
        hex
    } else {
        s
    };
    parse_unsigned(hex, 16, max)
}

/// The byte that a text writes, in decimal or hexadecimal form.
pub open spec fn spec_parse_u8(s: Seq<char>) -> Option<u8> {
    match spec_parse_number(s, 0xff) {
        Some(value) => Some(value as u8),
        None => None,
    }
}

/// Parse a byte from its characters.
pub fn parse_u8_chars(val: &[char]) -> (value: Option<u8>)
    ensures
        value == spec_parse_u8(val@),
{
    match parse_number(val, 0xff) {
        Some(value) => Some(value as u8),
        None => None,
    }
}

/// Parse a byte in decimal or hexadecimal form.
pub fn parse_u8(val: &str) -> (value: Option<u8>)
    ensures
        value == spec_parse_u8(val@),
{
    let chars = to_chars(val);
    parse_u8_chars(chars.as_slice())
}

/// The 16-bit number that a text writes, in decimal or hexadecimal form.
pub open spec fn spec_parse_u16(s: Seq<char>) -> Option<u16> {
    match spec_parse_number(s, 0xffff) {
        Some(value) => Some(value as u16),
        None => None,
    }
}

/// Parse a 16-bit number in decimal or hexadecimal form.
pub fn parse_u16(val: &str) -> (value: Option<u16>)
    ensures
        value == spec_parse_u16(val@),
{
    let chars = to_chars(val);
    match parse_number(chars.as_slice(), 0xffff) {
        Some(value) => Some(value as u16),
        None => None,
    }
}

/// A message: what is wrong, then the text that is.
pub fn complaint(what: &str, text: &str) -> (message: String)
    ensures
        message@ == what@ + text@,
{
    let message = what.to_owned();
    message.concat(text)
}

/// The value, or in its absence the message made of `what` and `text`.
pub open spec fn spec_or_complaint<V>(value: Option<V>, what: Seq<char>, text: Seq<char>) -> Result<
    V,
    Seq<char>,
> {
    match value {
        Some(v) => Ok(v),
        None => Err(what + text),
    }
}

/// The outcome of a parser that answers with a message.
pub open spec fn result_view<V>(result: Result<V, String>) -> Result<V, Seq<char>> {
    match result {
        Ok(v) => Ok(v),
        Err(message) => Err(message@),
    }
}

/// Parse the length of a period for a command line: the period, or the
/// message `invalid period: ` with the text.
pub fn parse_period_arg(s: &str) -> (result: Result<Period, String>)
    ensures
        result_view(result) == spec_or_complaint(spec_parse_period(s@), "invalid period: "@, s@),
{
    match parse_period(s) {
        Some(period) => Ok(period),
        None => Err(complaint("invalid period: ", s)),
    }
}

/// Parse a byte for a command line: the byte, or the message
/// `Invalid u8 value: ` with the text.
pub fn parse_u8_arg(s: &str) -> (result: Result<u8, String>)
    ensures
        result_view(result) == spec_or_complaint(spec_parse_u8(s@), "Invalid u8 value: "@, s@),
{
    match parse_u8(s) {
        Some(value) => Ok(value),
        None => Err(complaint("Invalid u8 value: ", s)),
    }
}

/// Parse a 16-bit number for a command line: the number, or the message
/// `Invalid u16 value: ` with the text.
pub fn parse_u16_arg(s: &str) -> (result: Result<u16, String>)
    ensures
        result_view(result) == spec_or_complaint(spec_parse_u16(s@), "Invalid u16 value: "@, s@),
{
    match parse_u16(s) {
        Some(value) => Ok(value),
        None => Err(complaint("Invalid u16 value: ", s)),
    }
}


impl core::str::FromStr for KeyGroup {
    type Err = String;

    /// The group that the text names, or the message `invalid key group: ` with the
    /// text.
    fn from_str(s: &str) -> (result: Result<KeyGroup, String>)
        ensures
            result_view(result) == spec_or_complaint(
                spec_parse_key_group(s@),
                "invalid key group: "@,
                s@,
            ),
    {
        match parse_key_group(s) {
            Some(value) => Ok(value),
            None => Err(complaint("invalid key group: ", s)),
        }
    }
}

impl core::str::FromStr for Key {
    type Err = String;

    /// The key that the text names, or the message `invalid key: ` with the
    /// text.
    fn from_str(s: &str) -> (result: Result<Key, String>)
        ensures
            result_view(result) == spec_or_complaint(spec_parse_key(s@), "invalid key: "@, s@),
    {
        match parse_key(s) {
            Some(value) => Ok(value),
            None => Err(complaint("invalid key: ", s)),
        }
    }
}

impl core::str::FromStr for Color {
    type Err = String;

    /// The colour that the text names, or the message `invalid color: ` with the
    /// text.
    fn from_str(s: &str) -> (result: Result<Color, String>)
        ensures
            result_view(result) == spec_or_complaint(spec_parse_color(s@), "invalid color: "@, s@),
    {
        match parse_color(s) {
            Some(value) => Ok(value),
            None => Err(complaint("invalid color: ", s)),
        }
    }
}

impl core::str::FromStr for StartupMode {
    type Err = String;

    /// The start-up mode that the text names, or the message `invalid startup mode: ` with the
    /// text.
    fn from_str(s: &str) -> (result: Result<StartupMode, String>)
        ensures
            result_view(result) == spec_or_complaint(
                spec_parse_startup_mode(s@),
                "invalid startup mode: "@,
                s@,
            ),
    {
        match parse_startup_mode(s) {
            Some(value) => Ok(value),
            None => Err(complaint("invalid startup mode: ", s)),
        }
    }
}

impl core::str::FromStr for OnBoardMode {
    type Err = String;

    /// The on-board mode that the text names, or the message `invalid on-board mode: ` with the
    /// text.
    fn from_str(s: &str) -> (result: Result<OnBoardMode, String>)
        ensures
            result_view(result) == spec_or_complaint(
                spec_parse_board_mode(s@),
                "invalid on-board mode: "@,
                s@,
            ),
    {
        match parse_board_mode(s) {
            Some(value) => Ok(value),
            None => Err(complaint("invalid on-board mode: ", s)),
        }
    }
}

impl core::str::FromStr for NativeEffect {
    type Err = String;

    /// The effect that the text names, or the message `invalid effect: ` with the
    /// text.
    fn from_str(s: &str) -> (result: Result<NativeEffect, String>)
        ensures
            result_view(result) == spec_or_complaint(
                spec_parse_native_effect(s@),
                "invalid effect: "@,
                s@,
            ),
    {
        match parse_native_effect(s) {
            Some(value) => Ok(value),
            None => Err(complaint("invalid effect: ", s)),
        }
    }
}

impl core::str::FromStr for NativeEffectPart {
    type Err = String;

    /// The part that the text names, or the message `invalid effect part: ` with the
    /// text.
    fn from_str(s: &str) -> (result: Result<NativeEffectPart, String>)
        ensures
            result_view(result) == spec_or_complaint(
                spec_parse_native_effect_part(s@),
                "invalid effect part: "@,
                s@,
            ),
    {
        match parse_native_effect_part(s) {
            Some(value) => Ok(value),
            None => Err(complaint("invalid effect part: ", s)),
        }
    }
}

impl core::str::FromStr for NativeEffectStorage {
    type Err = String;

    /// The storage that the text names, or the message `invalid effect storage: ` with the
    /// text.
    fn from_str(s: &str) -> (result: Result<NativeEffectStorage, String>)
        ensures
            result_view(result) == spec_or_complaint(
                spec_parse_native_effect_storage(s@),
                "invalid effect storage: "@,
                s@,
            ),
    {
        match parse_native_effect_storage(s) {
            Some(value) => Ok(value),
            None => Err(complaint("invalid effect storage: ", s)),
        }
    }
}

} // verus!

verus! {

/// The name of a start-up mode parses back to it.
pub proof fn lemma_startup_mode_name_parses_back(value: StartupMode)
    ensures
        spec_parse_startup_mode(value.spec_name()) == Some(value),
{
    reveal_strlit("wave");
    reveal_strlit("color");
    let name = value.spec_name();
    let table = spec_startup_mode_table();
    assert(spec_lower(name) =~= name);
    match value {
        StartupMode::Wave => {
            lemma_lookup_at(table, 0, name);
        },
        StartupMode::Color => {
            lemma_lookup_at(table, 1, name);
        },
    }
}

/// The name of an on-board mode parses back to it.
pub proof fn lemma_board_mode_name_parses_back(value: OnBoardMode)
    ensures
        spec_parse_board_mode(value.spec_name()) == Some(value),
{
    reveal_strlit("board");
    reveal_strlit("software");
    let name = value.spec_name();
    let table = spec_board_mode_table();
    assert(spec_lower(name) =~= name);
    match value {
        OnBoardMode::Board => {
            lemma_lookup_at(table, 0, name);
        },
        OnBoardMode::Software => {
            lemma_lookup_at(table, 1, name);
        },
    }
}

/// The name of an effect parses back to it.
pub proof fn lemma_native_effect_name_parses_back(value: NativeEffect)
    ensures
        spec_parse_native_effect(value.spec_name()) == Some(value),
{
    reveal_strlit("off");
    reveal_strlit("color");
    reveal_strlit("breathing");
    reveal_strlit("cycle");
    reveal_strlit("waves");
    reveal_strlit("h-wave");
    reveal_strlit("v-wave");
    reveal_strlit("c-wave");
    reveal_strlit("ripple");
    let name = value.spec_name();
    let table = spec_native_effect_table();
    assert(spec_lower(name) =~= name);
    match value {
        NativeEffect::Off => {
            lemma_lookup_at(table, 0, name);
        },
        NativeEffect::Color => {
            lemma_lookup_at(table, 1, name);
        },
        NativeEffect::Breathing => {
            lemma_lookup_at(table, 2, name);
        },
        NativeEffect::Cycle => {
            assert("color"@[1] != "cycle"@[1]);
            lemma_lookup_at(table, 3, name);
        },
        NativeEffect::Waves => {
            assert("color"@[0] != "waves"@[0]);
            assert("cycle"@[0] != "waves"@[0]);
            lemma_lookup_at(table, 4, name);
        },
        NativeEffect::HWave => {
            lemma_lookup_at(table, 5, name);
        },
        NativeEffect::VWave => {
            assert("h-wave"@[0] != "v-wave"@[0]);
            lemma_lookup_at(table, 6, name);
        },
        NativeEffect::CWave => {
            assert("h-wave"@[0] != "c-wave"@[0]);
            assert("v-wave"@[0] != "c-wave"@[0]);
            lemma_lookup_at(table, 7, name);
        },
        NativeEffect::Ripple => {
            assert("h-wave"@[0] != "ripple"@[0]);
            assert("v-wave"@[0] != "ripple"@[0]);
            assert("c-wave"@[0] != "ripple"@[0]);
            lemma_lookup_at(table, 8, name);
        },
    }
}

/// The name of a part parses back to it.
pub proof fn lemma_native_effect_part_name_parses_back(value: NativeEffectPart)
    ensures
        spec_parse_native_effect_part(value.spec_name()) == Some(value),
{
    reveal_strlit("all");
    reveal_strlit("keys");
    reveal_strlit("logo");
    let name = value.spec_name();
    let table = spec_native_effect_part_table();
    assert(spec_lower(name) =~= name);
    match value {
        NativeEffectPart::All => {
            lemma_lookup_at(table, 0, name);
        },
        NativeEffectPart::Keys => {
            lemma_lookup_at(table, 1, name);
        },
        NativeEffectPart::Logo => {
            assert("keys"@[0] != "logo"@[0]);
            lemma_lookup_at(table, 2, name);
        },
    }
}

/// The name of a storage parses back to it.
pub proof fn lemma_native_effect_storage_name_parses_back(value: NativeEffectStorage)
    ensures
        spec_parse_native_effect_storage(value.spec_name()) == Some(value),
{
    reveal_strlit("none");
    reveal_strlit("user");
    let name = value.spec_name();
    let table = spec_native_effect_storage_table();
    assert(spec_lower(name) =~= name);
    match value {
        NativeEffectStorage::Volatile => {
            lemma_lookup_at(table, 0, name);
        },
        NativeEffectStorage::User => {
            assert("none"@[0] != "user"@[0]);
            lemma_lookup_at(table, 1, name);
        },
    }
}

/// The name of a key group parses back to it.
pub proof fn lemma_key_group_name_parses_back(value: KeyGroup)
    ensures
        spec_parse_key_group(value.spec_name()) == Some(value),
{
    reveal_strlit("logo");
    reveal_strlit("indicators");
    reveal_strlit("multimedia");
    reveal_strlit("gkeys");
    reveal_strlit("g-keys");
    reveal_strlit("fkeys");
    reveal_strlit("f-keys");
    reveal_strlit("modifiers");
    reveal_strlit("functions");
    reveal_strlit("arrows");
    reveal_strlit("numeric");
    reveal_strlit("keys");
    let name = value.spec_name();
    let table = spec_key_group_table();
    assert(spec_trim_start(name) == name);
    assert(spec_trim(name) == name);
    assert(spec_dashes(name) =~= name);
    assert(spec_lower(name) =~= name);
    match value {
        KeyGroup::Logo => {
            lemma_lookup_at(table, 0, name);
        },
        KeyGroup::Indicators => {
            lemma_lookup_at(table, 1, name);
        },
        KeyGroup::Multimedia => {
            assert("indicators"@[0] != "multimedia"@[0]);
            lemma_lookup_at(table, 2, name);
        },
        KeyGroup::GKeys => {
            lemma_lookup_at(table, 4, name);
        },
        KeyGroup::FKeys => {
            assert("g-keys"@[0] != "f-keys"@[0]);
            lemma_lookup_at(table, 6, name);
        },
        KeyGroup::Modifiers => {
            lemma_lookup_at(table, 7, name);
        },
        KeyGroup::Functions => {
            assert("modifiers"@[0] != "functions"@[0]);
            lemma_lookup_at(table, 8, name);
        },
        KeyGroup::Arrows => {
            assert("g-keys"@[0] != "arrows"@[0]);
            assert("f-keys"@[0] != "arrows"@[0]);
            lemma_lookup_at(table, 9, name);
        },
        KeyGroup::Numeric => {
            lemma_lookup_at(table, 10, name);
        },
        KeyGroup::Keys => {
            assert("logo"@[0] != "keys"@[0]);
            lemma_lookup_at(table, 11, name);
        },
    }
}

} // verus!
