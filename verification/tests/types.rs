use logi_led::types::{Color, Key, KeyGroup, KeyValue, OnBoardMode, Period, StartupMode};

#[test]
fn color_default_is_white() {
    assert_eq!(Color::default(), Color { red: 255, green: 255, blue: 255 });
    assert_eq!(Color::new(1, 2, 3), Color { red: 1, green: 2, blue: 3 });
}

#[test]
fn period_values() {
    assert_eq!(Period::default(), Period { millis: 0 });
    assert_eq!(Period::from_millis(250).as_millis(), 250);
    assert_eq!(Period::from_secs(2), Period::from_millis(2000));
    assert_eq!(Period::from_secs(u64::MAX).as_millis(), u64::MAX as u128 * 1000);
    assert_eq!(Period::from_millis(0).wire_millis(), 0);
    assert_eq!(Period::from_millis(0xffff).wire_millis(), 0xffff);
    assert_eq!(Period::from_millis(0x10000).wire_millis(), 0xffff);
    assert_eq!(Period::from_secs(65).wire_millis(), 65000);
    assert_eq!(Period::from_secs(66).wire_millis(), 0xffff);
}

#[test]
fn mode_codes() {
    assert_eq!(StartupMode::Wave.code(), 1);
    assert_eq!(StartupMode::Color.code(), 2);
    assert_eq!(OnBoardMode::Board.code(), 1);
    assert_eq!(OnBoardMode::Software.code(), 2);
}

#[test]
fn key_codes() {
    assert_eq!(Key::Logo.code(), 0x0001);
    assert_eq!(Key::Logo2.code(), 0x0002);
    assert_eq!(Key::Backlight.code(), 0x0101);
    assert_eq!(Key::Num.code(), 0x0105);
    assert_eq!(Key::Next.code(), 0x02b5);
    assert_eq!(Key::Mute.code(), 0x02e2);
    assert_eq!(Key::G1.code(), 0x0301);
    assert_eq!(Key::G9.code(), 0x0309);
    assert_eq!(Key::A.code(), 0x0404);
    assert_eq!(Key::Z.code(), 0x041d);
    assert_eq!(Key::N1.code(), 0x041e);
    assert_eq!(Key::N0.code(), 0x0427);
    assert_eq!(Key::F12.code(), 0x0445);
    assert_eq!(Key::Menu.code(), 0x0465);
    assert_eq!(Key::AbntSlash.code(), 0x0487);
    assert_eq!(Key::CtrlLeft.code(), 0x04e0);
    assert_eq!(Key::WinRight.code(), 0x04e7);
}

#[test]
fn key_code_splits_into_group_and_hid_code() {
    let keys = Key::all();
    assert_eq!(keys.len(), 128);
    for key in &keys {
        assert_eq!(key.code(), ((key.group() as u16) << 8) | key.hid_code() as u16);
        assert!(key.group() <= 4);
    }
    for pair in keys.windows(2) {
        assert!(pair[0].code() < pair[1].code());
    }
    assert_eq!(Key::Mute.group(), 2);
    assert_eq!(Key::Mute.hid_code(), 0xe2);
}

#[test]
fn key_group_codes() {
    let groups = KeyGroup::all();
    assert_eq!(groups.len(), 10);
    for (place, group) in groups.iter().enumerate() {
        assert_eq!(group.code() as usize, place);
    }
    assert_eq!(KeyGroup::Logo.code(), 0);
    assert_eq!(KeyGroup::Keys.code(), 9);
}

#[test]
fn key_group_keys() {
    assert_eq!(KeyGroup::Logo.keys(), vec![Key::Logo, Key::Logo2]);
    assert_eq!(
        KeyGroup::Indicators.keys(),
        vec![Key::Backlight, Key::Game, Key::Caps, Key::Scroll, Key::Num]
    );
    assert_eq!(
        KeyGroup::Multimedia.keys(),
        vec![Key::Next, Key::Prev, Key::Stop, Key::Play, Key::Mute]
    );
    assert_eq!(KeyGroup::GKeys.keys().len(), 9);
    let fkeys = KeyGroup::FKeys.keys();
    assert_eq!(fkeys.len(), 107);
    assert_eq!(fkeys[0], Key::A);
    assert_eq!(fkeys[106], Key::WinRight);
    for group in [
        KeyGroup::Modifiers,
        KeyGroup::Functions,
        KeyGroup::Arrows,
        KeyGroup::Numeric,
        KeyGroup::Keys,
    ] {
        assert!(group.keys().is_empty());
    }
    for group in KeyGroup::all() {
        let expected: Vec<Key> =
            Key::all().into_iter().filter(|key| key.group() == group.code()).collect();
        assert_eq!(group.keys(), expected);
    }
}

#[test]
fn key_value_is_a_plain_pair() {
    let request = KeyValue { key: Key::Esc, color: Color::new(1, 2, 3) };
    let copy = request;
    assert_eq!(copy, request);
    assert_eq!(copy.key, Key::Esc);
}

#[test]
fn key_from_code() {
    for key in Key::all() {
        assert_eq!(Key::from_code(key.code()), Some(key));
    }
    assert_eq!(Key::from_code(0x0000), None);
    assert_eq!(Key::from_code(0x0404), Some(Key::A));
    assert_eq!(Key::from_code(0x0403), None);
    assert_eq!(Key::from_code(0x04e8), None);
    assert_eq!(Key::from_code(0xffff), None);
    let known = (0..=u16::MAX).filter(|code| Key::from_code(*code).is_some()).count();
    assert_eq!(known, 128);
}
