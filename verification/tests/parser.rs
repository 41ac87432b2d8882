use logi_led::effects::{NativeEffect, NativeEffectPart, NativeEffectStorage};
use logi_led::parser::{
    ascii_lower, key_table, parse_board_mode, parse_color, parse_key, parse_key_group,
    parse_native_effect, parse_native_effect_part, parse_native_effect_storage, parse_period,
    parse_period_arg, parse_startup_mode, parse_u16, parse_u16_arg, parse_u8, parse_u8_arg,
};
use logi_led::types::{Color, Key, KeyGroup, OnBoardMode, Period, StartupMode};

#[test]
fn parse_color_valid() {
    assert_eq!(parse_color("#ff3366"), Some(Color::new(0xff, 0x33, 0x66)));
    assert_eq!(parse_color("80"), Some(Color::new(0x80, 0x80, 0x80)));
    assert_eq!(parse_color("red"), Some(Color::new(0xff, 0x00, 0x00)));
}

#[test]
fn parse_color_invalid() {
    assert!(parse_color("xyz").is_none());
}

#[test]
fn parse_key_alias_and_single() {
    assert_eq!(parse_key("light"), Some(Key::Backlight));
    assert_eq!(parse_key("A"), Some(Key::A));
    assert_eq!(parse_key("5"), Some(Key::N5));
}

#[test]
fn parse_period_ms_second() {
    assert_eq!(parse_period("250ms"), Some(Period::from_millis(250)));
    assert_eq!(parse_period("2s"), Some(Period::from_secs(2)));
}

#[test]
fn parse_period_hex() {
    assert_eq!(
        parse_period("ff"),
        Some(Period::from_millis(u64::from(0xffu8) << 8))
    );
    assert_eq!(
        parse_period("f"),
        Some(Period::from_millis(u64::from(0x0fu8) << 8))
    );
}

#[test]
fn parse_u8_decimal_and_hex() {
    assert_eq!(parse_u8("80"), Some(80));
    assert_eq!(parse_u16("0xff"), Some(0xff));
}

#[test]
fn parse_color_forms() {
    assert_eq!(parse_color("FF3366"), Some(Color::new(0xff, 0x33, 0x66)));
    assert_eq!(parse_color("##00ff00"), Some(Color::new(0, 0xff, 0)));
    assert_eq!(parse_color("#Red"), Some(Color::new(0xff, 0, 0)));
    assert_eq!(parse_color("PINK"), Some(Color::new(0xff, 0xc0, 0xcb)));
    assert_eq!(parse_color("orange"), Some(Color::new(0xff, 0xa5, 0x00)));
    assert_eq!(parse_color("purple"), Some(Color::new(0x80, 0x00, 0x80)));
    assert_eq!(parse_color("0a"), Some(Color::new(0x0a, 0x0a, 0x0a)));
    assert_eq!(parse_color("+f"), Some(Color::new(0x0f, 0x0f, 0x0f)));
    assert_eq!(parse_color("+1+2+3"), Some(Color::new(1, 2, 3)));
}

#[test]
fn parse_color_rejects() {
    for text in [
        "", "#", "f", "fff", "ffff", "fffff", "fffffff", "gg", "00ff0g", " ff0000", "ff0000 ",
        "red ", "r e d", "0x10", "++", "+", "-1", "ff 000", "\u{e9}\u{e9}\u{e9}", "a\u{e9}123",
        "\u{20ac}\u{20ac}",
    ] {
        assert_eq!(parse_color(text), None, "{text:?}");
    }
}

#[test]
fn parse_key_names() {
    assert_eq!(parse_key("logo"), Some(Key::Logo));
    assert_eq!(parse_key("LOGO2"), Some(Key::Logo2));
    assert_eq!(parse_key("Back_Light"), Some(Key::Backlight));
    assert_eq!(parse_key("num/"), Some(Key::NumSlash));
    assert_eq!(parse_key("num*"), Some(Key::NumAsterisk));
    assert_eq!(parse_key("\\"), Some(Key::Backslash));
    assert_eq!(parse_key("\""), Some(Key::Quote));
    assert_eq!(parse_key("$"), Some(Key::Dollar));
    assert_eq!(parse_key("~"), Some(Key::Tilde));
    assert_eq!(parse_key("rwin"), Some(Key::WinRight));
    assert_eq!(parse_key("z"), Some(Key::Z));
    assert_eq!(parse_key("0"), Some(Key::N0));
    assert_eq!(parse_key("f12"), Some(Key::F12));
    assert_eq!(parse_key("G9"), Some(Key::G9));
    assert_eq!(parse_key("pgdn"), Some(Key::PageDown));
    assert_eq!(parse_key("abntslash"), Some(Key::AbntSlash));
    assert_eq!(parse_key("of"), None);
    assert_eq!(parse_key(""), None);
    assert_eq!(parse_key(" a"), None);
    assert_eq!(parse_key("f13"), None);
    assert_eq!(parse_key("\u{e9}"), None);
}

#[test]
fn parse_key_every_key_has_a_name() {
    let mut named: Vec<Key> = Vec::new();
    for (name, key) in key_table() {
        assert_eq!(parse_key(name), Some(key));
        assert_eq!(parse_key(&name.to_uppercase()), Some(key));
        assert_eq!(name.parse::<Key>(), Ok(key));
        if !named.contains(&key) {
            named.push(key);
        }
    }
    assert_eq!(key_table().len(), 183);
    assert_eq!(named.len(), Key::all().len());
}

#[test]
fn parse_period_forms() {
    assert_eq!(parse_period(" 250MS "), Some(Period::from_millis(250)));
    assert_eq!(parse_period("0ms"), Some(Period::from_millis(0)));
    assert_eq!(parse_period("+7s"), Some(Period::from_secs(7)));
    assert_eq!(parse_period("2S"), Some(Period::from_secs(2)));
    assert_eq!(parse_period("0a"), Some(Period::from_millis(0x0a00)));
    assert_eq!(parse_period("A"), Some(Period::from_millis(0x0a00)));
    assert_eq!(parse_period("00"), Some(Period::from_millis(0)));
    assert_eq!(parse_period("\t7\n"), Some(Period::from_millis(0x0700)));
    assert_eq!(
        parse_period("18446744073709551615s"),
        Some(Period { millis: 18446744073709551615u128 * 1000 })
    );
    assert_eq!(
        parse_period("18446744073709551615ms"),
        Some(Period { millis: 18446744073709551615u128 })
    );
}

#[test]
fn parse_period_rejects() {
    for text in [
        "", " ", "s", "ms", "xs", "1.5s", "-1s", "18446744073709551616s", "250", "fff", "g", "+f",
        "+", "f f", "1 s", "2sec", "0x10", "\u{e9}", "1\u{e9}",
    ] {
        assert_eq!(parse_period(text), None, "{text:?}");
    }
}

#[test]
fn parse_numbers() {
    assert_eq!(parse_u8("0"), Some(0));
    assert_eq!(parse_u8("255"), Some(255));
    assert_eq!(parse_u8("256"), None);
    assert_eq!(parse_u8("+12"), Some(12));
    assert_eq!(parse_u8("007"), Some(7));
    assert_eq!(parse_u8("ff"), Some(0xff));
    assert_eq!(parse_u8("0xff"), Some(0xff));
    assert_eq!(parse_u8("0xFF"), Some(0xff));
    assert_eq!(parse_u8("0x+f"), Some(0x0f));
    assert_eq!(parse_u8("10"), Some(10));
    assert_eq!(parse_u8("0x10"), Some(16));
    assert_eq!(parse_u8("1a"), Some(0x1a));
    assert_eq!(parse_u8("0x100"), None);
    assert_eq!(parse_u8("0X10"), None);
    assert_eq!(parse_u8(""), None);
    assert_eq!(parse_u8("0x"), None);
    assert_eq!(parse_u8("-1"), None);
    assert_eq!(parse_u8(" 1"), None);
    assert_eq!(parse_u8("1_0"), None);
    assert_eq!(parse_u16("65535"), Some(65535));
    assert_eq!(parse_u16("65536"), None);
    assert_eq!(parse_u16("0xc336"), Some(0xc336));
    assert_eq!(parse_u16("046d"), Some(0x046d));
    assert_eq!(parse_u16("0046"), Some(46));
    assert_eq!(parse_u16("ffff"), Some(0xffff));
    assert_eq!(parse_u16("10000"), Some(10000));
    assert_eq!(parse_u16("99999"), None);
    assert_eq!(parse_u16("0x10000"), None);
}

#[test]
fn parse_arguments_answer_with_a_message() {
    assert_eq!(parse_period_arg("3s"), Ok(Period::from_secs(3)));
    assert_eq!(parse_period_arg("soon"), Err("invalid period: soon".to_string()));
    assert_eq!(parse_u8_arg("0x20"), Ok(0x20));
    assert_eq!(parse_u8_arg("300"), Err("Invalid u8 value: 300".to_string()));
    assert_eq!(parse_u16_arg("300"), Ok(300));
    assert_eq!(parse_u16_arg("x"), Err("Invalid u16 value: x".to_string()));
}

#[test]
fn parse_key_groups() {
    assert_eq!(parse_key_group("logo"), Some(KeyGroup::Logo));
    assert_eq!(parse_key_group(" Indicators\n"), Some(KeyGroup::Indicators));
    assert_eq!(parse_key_group("MULTIMEDIA"), Some(KeyGroup::Multimedia));
    assert_eq!(parse_key_group("gkeys"), Some(KeyGroup::GKeys));
    assert_eq!(parse_key_group("g-keys"), Some(KeyGroup::GKeys));
    assert_eq!(parse_key_group("G_Keys"), Some(KeyGroup::GKeys));
    assert_eq!(parse_key_group("fkeys"), Some(KeyGroup::FKeys));
    assert_eq!(parse_key_group("f_keys"), Some(KeyGroup::FKeys));
    assert_eq!(parse_key_group("modifiers"), Some(KeyGroup::Modifiers));
    assert_eq!(parse_key_group("functions"), Some(KeyGroup::Functions));
    assert_eq!(parse_key_group("arrows"), Some(KeyGroup::Arrows));
    assert_eq!(parse_key_group("numeric"), Some(KeyGroup::Numeric));
    assert_eq!(parse_key_group("keys"), Some(KeyGroup::Keys));
    assert_eq!(parse_key_group("key"), None);
    assert_eq!(parse_key_group("g keys"), None);
    assert_eq!(parse_key_group(""), None);
    assert_eq!("arrows".parse::<KeyGroup>(), Ok(KeyGroup::Arrows));
    assert_eq!("up".parse::<KeyGroup>(), Err("invalid key group: up".to_string()));
}

#[test]
fn parse_modes_and_effects() {
    assert_eq!(parse_startup_mode("wave"), Some(StartupMode::Wave));
    assert_eq!(parse_startup_mode("COLOR"), Some(StartupMode::Color));
    assert_eq!(parse_startup_mode("colour"), None);
    assert_eq!(parse_startup_mode(" wave"), None);
    assert_eq!(parse_board_mode("Board"), Some(OnBoardMode::Board));
    assert_eq!(parse_board_mode("software"), Some(OnBoardMode::Software));
    assert_eq!(parse_board_mode("soft"), None);
    let effects = [
        ("off", NativeEffect::Off),
        ("color", NativeEffect::Color),
        ("breathing", NativeEffect::Breathing),
        ("cycle", NativeEffect::Cycle),
        ("waves", NativeEffect::Waves),
        ("h-wave", NativeEffect::HWave),
        ("v-wave", NativeEffect::VWave),
        ("c-wave", NativeEffect::CWave),
        ("ripple", NativeEffect::Ripple),
    ];
    for (name, effect) in effects {
        assert_eq!(parse_native_effect(name), Some(effect));
        assert_eq!(parse_native_effect(&name.to_uppercase()), Some(effect));
        assert_eq!(name.parse::<NativeEffect>(), Ok(effect));
    }
    assert_eq!(parse_native_effect("hwave"), None);
    assert_eq!(parse_native_effect("h_wave"), None);
    assert_eq!(parse_native_effect(""), None);
    assert_eq!(parse_native_effect_part("all"), Some(NativeEffectPart::All));
    assert_eq!(parse_native_effect_part("Keys"), Some(NativeEffectPart::Keys));
    assert_eq!(parse_native_effect_part("LOGO"), Some(NativeEffectPart::Logo));
    assert_eq!(parse_native_effect_part("both"), None);
    assert_eq!(parse_native_effect_storage("none"), Some(NativeEffectStorage::Volatile));
    assert_eq!(parse_native_effect_storage("User"), Some(NativeEffectStorage::User));
    assert_eq!(parse_native_effect_storage("disk"), None);
    assert_eq!("x".parse::<NativeEffectPart>(), Err("invalid effect part: x".to_string()));
    assert_eq!("x".parse::<Color>(), Err("invalid color: x".to_string()));
    assert_eq!("x!".parse::<Key>(), Err("invalid key: x!".to_string()));
    assert_eq!("#102030".parse::<Color>(), Ok(Color::new(0x10, 0x20, 0x30)));
}

#[test]
fn ascii_lower_keeps_other_characters() {
    let lowered: String = ascii_lower("AbC-\u{c9}\u{e9} Z[`{").into_iter().collect();
    assert_eq!(lowered, "abc-\u{c9}\u{e9} z[`{");
}

#[test]
fn names_parse_back() {
    for group in KeyGroup::all() {
        assert_eq!(parse_key_group(group.name()), Some(group));
    }
    assert_eq!(KeyGroup::GKeys.name(), "g-keys");
    assert_eq!(KeyGroup::FKeys.name(), "f-keys");
    for mode in [StartupMode::Wave, StartupMode::Color] {
        assert_eq!(parse_startup_mode(mode.name()), Some(mode));
    }
    for mode in [OnBoardMode::Board, OnBoardMode::Software] {
        assert_eq!(parse_board_mode(mode.name()), Some(mode));
    }
    for effect in [
        NativeEffect::Off,
        NativeEffect::Color,
        NativeEffect::Breathing,
        NativeEffect::Cycle,
        NativeEffect::Waves,
        NativeEffect::HWave,
        NativeEffect::VWave,
        NativeEffect::CWave,
        NativeEffect::Ripple,
    ] {
        assert_eq!(parse_native_effect(effect.name()), Some(effect));
        assert_eq!(effect.group().name() == effect.name(), effect.subcode() == 0);
    }
    assert_eq!(NativeEffect::HWave.name(), "h-wave");
    for part in [NativeEffectPart::All, NativeEffectPart::Keys, NativeEffectPart::Logo] {
        assert_eq!(parse_native_effect_part(part.name()), Some(part));
    }
    for storage in [NativeEffectStorage::Volatile, NativeEffectStorage::User] {
        assert_eq!(parse_native_effect_storage(storage.name()), Some(storage));
    }
    assert_eq!(NativeEffectStorage::Volatile.name(), "none");
}
