use logi_led::effects::{
    native_effect_packets, NativeEffect, NativeEffectGroup, NativeEffectPart, NativeEffectStorage,
};
use logi_led::model::KeyboardModel;
use logi_led::packet::native_effect_packet;
use logi_led::types::{Color, Period};

const MODELS: [KeyboardModel; 11] = [
    KeyboardModel::Unknown,
    KeyboardModel::G213,
    KeyboardModel::G410,
    KeyboardModel::G413,
    KeyboardModel::G512,
    KeyboardModel::G513,
    KeyboardModel::G610,
    KeyboardModel::G810,
    KeyboardModel::G815,
    KeyboardModel::G910,
    KeyboardModel::GPro,
];

const EFFECTS: [NativeEffect; 9] = [
    NativeEffect::Off,
    NativeEffect::Color,
    NativeEffect::Breathing,
    NativeEffect::Cycle,
    NativeEffect::Waves,
    NativeEffect::HWave,
    NativeEffect::VWave,
    NativeEffect::CWave,
    NativeEffect::Ripple,
];

const G815_SETUP: [u8; 20] =
    [0x11, 0xff, 0x0f, 0x5c, 0x01, 0x03, 0x03, 0, 0, 0, 0, 0, 0, 0, 0, 0, 0, 0, 0, 0];

fn color() -> Color {
    Color { red: 1, green: 2, blue: 3 }
}

#[test]
fn effect_codes_and_groups() {
    assert_eq!(NativeEffect::Off.code(), 0x0000);
    assert_eq!(NativeEffect::Color.code(), 0x0100);
    assert_eq!(NativeEffect::Breathing.code(), 0x0200);
    assert_eq!(NativeEffect::Cycle.code(), 0x0300);
    assert_eq!(NativeEffect::Waves.code(), 0x0400);
    assert_eq!(NativeEffect::HWave.code(), 0x0401);
    assert_eq!(NativeEffect::VWave.code(), 0x0402);
    assert_eq!(NativeEffect::CWave.code(), 0x0403);
    assert_eq!(NativeEffect::Ripple.code(), 0x0500);
    for effect in EFFECTS {
        assert_eq!(effect.group().code(), (effect.code() >> 8) as u8);
        assert_eq!(effect.subcode(), (effect.code() & 0xff) as u8);
    }
    assert_eq!(NativeEffect::CWave.group(), NativeEffectGroup::Waves);
    assert_eq!(NativeEffect::Ripple.group(), NativeEffectGroup::Ripple);
    assert_eq!(NativeEffectPart::All.code(), 0xff);
    assert_eq!(NativeEffectPart::Keys.code(), 0x00);
    assert_eq!(NativeEffectPart::Logo.code(), 0x01);
    assert_eq!(NativeEffectStorage::Volatile.code(), 0x00);
    assert_eq!(NativeEffectStorage::User.code(), 0x01);
}

#[test]
fn one_descriptor_on_plain_models() {
    let packets = native_effect_packets(
        KeyboardModel::G810,
        NativeEffect::Breathing,
        NativeEffectPart::Keys,
        Period::from_millis(1000),
        color(),
        NativeEffectStorage::User,
    );
    assert_eq!(
        packets,
        Some(vec![vec![
            0x11, 0xff, 0x0d, 0x3c, 0x00, 0x02, 1, 2, 3, 0x03, 0xe8, 0x03, 0xe8, 0x00, 0x64, 0x03,
            0x01, 0x00, 0x00, 0x00,
        ]])
    );
}

#[test]
fn all_is_keys_then_logo() {
    let period = Period::from_millis(300);
    for model in MODELS {
        for effect in EFFECTS {
            for storage in [NativeEffectStorage::Volatile, NativeEffectStorage::User] {
                let all = native_effect_packets(
                    model,
                    effect,
                    NativeEffectPart::All,
                    period,
                    color(),
                    storage,
                );
                let keys = native_effect_packets(
                    model,
                    effect,
                    NativeEffectPart::Keys,
                    period,
                    color(),
                    storage,
                );
                let logo = native_effect_packets(
                    model,
                    effect,
                    NativeEffectPart::Logo,
                    period,
                    color(),
                    storage,
                );
                let mut expected = keys.unwrap_or_default();
                expected.extend(logo.unwrap_or_default());
                assert_eq!(all, Some(expected));
            }
        }
    }
}

#[test]
fn all_on_concrete_model() {
    let packets = native_effect_packets(
        KeyboardModel::G410,
        NativeEffect::Cycle,
        NativeEffectPart::All,
        Period::from_millis(0x0a00),
        color(),
        NativeEffectStorage::Volatile,
    );
    assert_eq!(
        packets,
        Some(vec![
            vec![
                0x11, 0xff, 0x0d, 0x3c, 0x00, 0x03, 1, 2, 3, 0x0a, 0x00, 0x0a, 0x00, 0x00, 0x64,
                0x0a, 0x00, 0x00, 0x00, 0x00,
            ],
            vec![
                0x11, 0xff, 0x0d, 0x3c, 0x01, 0x03, 1, 2, 3, 0x0a, 0x00, 0x0a, 0x00, 0x00, 0x64,
                0x0a, 0x00, 0x00, 0x00, 0x00,
            ],
        ])
    );
}

#[test]
fn models_without_logo_send_nothing_for_it() {
    for model in [KeyboardModel::G213, KeyboardModel::G413] {
        for effect in EFFECTS {
            assert_eq!(
                native_effect_packets(
                    model,
                    effect,
                    NativeEffectPart::Logo,
                    Period::from_millis(5),
                    color(),
                    NativeEffectStorage::Volatile
                ),
                Some(vec![])
            );
        }
        let all = native_effect_packets(
            model,
            NativeEffect::Color,
            NativeEffectPart::All,
            Period::from_millis(5),
            color(),
            NativeEffectStorage::Volatile,
        )
        .unwrap();
        assert_eq!(all.len(), 1);
        assert_eq!(all[0][4], 0x00);
    }
}

#[test]
fn unknown_model_has_no_effects() {
    for effect in EFFECTS {
        for part in [NativeEffectPart::Keys, NativeEffectPart::Logo] {
            assert_eq!(
                native_effect_packets(
                    KeyboardModel::Unknown,
                    effect,
                    part,
                    Period::from_millis(5),
                    color(),
                    NativeEffectStorage::Volatile
                ),
                None
            );
        }
        assert_eq!(
            native_effect_packets(
                KeyboardModel::Unknown,
                effect,
                NativeEffectPart::All,
                Period::from_millis(5),
                color(),
                NativeEffectStorage::Volatile
            ),
            Some(vec![])
        );
    }
}

#[test]
fn logo_wave_is_static_cyan() {
    let cyan = Color { red: 0, green: 255, blue: 255 };
    for model in MODELS {
        if model == KeyboardModel::G815 {
            continue;
        }
        for effect in
            [NativeEffect::Waves, NativeEffect::HWave, NativeEffect::VWave, NativeEffect::CWave]
        {
            for storage in [NativeEffectStorage::Volatile, NativeEffectStorage::User] {
                let wave = native_effect_packets(
                    model,
                    effect,
                    NativeEffectPart::Logo,
                    Period::from_millis(777),
                    color(),
                    storage,
                );
                let fixed = native_effect_packets(
                    model,
                    NativeEffect::Color,
                    NativeEffectPart::Logo,
                    Period::from_millis(0),
                    cyan,
                    storage,
                );
                assert_eq!(wave, fixed);
            }
        }
    }
    assert_eq!(
        native_effect_packets(
            KeyboardModel::G910,
            NativeEffect::HWave,
            NativeEffectPart::Logo,
            Period::from_millis(777),
            color(),
            NativeEffectStorage::User,
        ),
        Some(vec![vec![
            0x11, 0xff, 0x10, 0x3c, 0x01, 0x01, 0x00, 0xff, 0xff, 0x00, 0x00, 0x00, 0x00, 0x00,
            0x64, 0x00, 0x01, 0x00, 0x00, 0x00,
        ]])
    );
}

#[test]
fn keys_wave_is_kept() {
    let packets = native_effect_packets(
        KeyboardModel::G810,
        NativeEffect::HWave,
        NativeEffectPart::Keys,
        Period::from_millis(0x0203),
        color(),
        NativeEffectStorage::Volatile,
    );
    assert_eq!(
        packets,
        Some(vec![vec![
            0x11, 0xff, 0x0d, 0x3c, 0x00, 0x04, 1, 2, 3, 0x02, 0x03, 0x02, 0x03, 0x01, 0x64, 0x02,
            0x00, 0x00, 0x00, 0x00,
        ]])
    );
}

#[test]
fn g815_keys_effect() {
    let packets = native_effect_packets(
        KeyboardModel::G815,
        NativeEffect::Color,
        NativeEffectPart::Keys,
        Period::from_millis(0x0203),
        color(),
        NativeEffectStorage::Volatile,
    );
    assert_eq!(
        packets,
        Some(vec![
            G815_SETUP.to_vec(),
            vec![
                0x11, 0xff, 0x0f, 0x1c, 0x01, 0x01, 1, 2, 3, 0x02, 0x03, 0x02, 0x03, 0x00, 0x64,
                0x02, 0x01, 0x00, 0x00, 0x00,
            ],
        ])
    );
}

#[test]
fn g815_keys_ripple_carries_its_period() {
    let packets = native_effect_packets(
        KeyboardModel::G815,
        NativeEffect::Ripple,
        NativeEffectPart::Keys,
        Period::from_millis(0x0203),
        color(),
        NativeEffectStorage::User,
    );
    assert_eq!(
        packets,
        Some(vec![
            G815_SETUP.to_vec(),
            vec![
                0x11, 0xff, 0x0f, 0x1c, 0x01, 0x05, 1, 2, 3, 0x00, 0x03, 0x02, 0x00, 0x00, 0x64,
                0x02, 0x01, 0x00, 0x00, 0x00,
            ],
        ])
    );
}

#[test]
fn g815_keys_ripple_period_is_low_byte_first() {
    let cases = [
        (0u64, 0x00u8, 0x00u8),
        (1, 0x01, 0x00),
        (256, 0x00, 0x01),
        (0xffff, 0xff, 0xff),
        (70000, 0xff, 0xff),
    ];
    for (millis, low, high) in cases {
        let packets = native_effect_packets(
            KeyboardModel::G815,
            NativeEffect::Ripple,
            NativeEffectPart::Keys,
            Period::from_millis(millis),
            color(),
            NativeEffectStorage::Volatile,
        )
        .unwrap();
        assert_eq!(packets.len(), 2);
        assert_eq!(&packets[1][9..13], &[0x00, low, high, 0x00]);
        assert_eq!(packets[1][15], high);
        assert_eq!(packets[1][4], 0x01);
        assert_eq!(packets[1][16], 0x01);
    }
}

#[test]
fn g815_logo_effects() {
    let expected = [
        (NativeEffect::Off, 0x00u8, 0x00u8),
        (NativeEffect::Color, 0x01, 0x00),
        (NativeEffect::Breathing, 0x03, 0x00),
        (NativeEffect::Cycle, 0x02, 0x00),
        (NativeEffect::Waves, 0x02, 0x00),
        (NativeEffect::HWave, 0x02, 0x64),
        (NativeEffect::VWave, 0x02, 0x64),
        (NativeEffect::CWave, 0x02, 0x64),
        (NativeEffect::Ripple, 0x00, 0x00),
    ];
    for (effect, name, variant) in expected {
        let packets = native_effect_packets(
            KeyboardModel::G815,
            effect,
            NativeEffectPart::Logo,
            Period::from_millis(0x0203),
            color(),
            NativeEffectStorage::Volatile,
        );
        assert_eq!(
            packets,
            Some(vec![
                G815_SETUP.to_vec(),
                vec![
                    0x11, 0xff, 0x0f, 0x1c, 0x00, name, 1, 2, 3, 0x02, 0x03, 0x02, 0x03, variant,
                    0x64, 0x02, 0x01, 0x00, 0x00, 0x00,
                ],
            ])
        );
    }
}

#[test]
fn g815_all_sends_setup_twice() {
    let packets = native_effect_packets(
        KeyboardModel::G815,
        NativeEffect::Breathing,
        NativeEffectPart::All,
        Period::from_millis(1),
        color(),
        NativeEffectStorage::Volatile,
    )
    .unwrap();
    assert_eq!(packets.len(), 4);
    assert_eq!(packets[0], G815_SETUP.to_vec());
    assert_eq!(packets[2], G815_SETUP.to_vec());
    assert_eq!(packets[1][4], 0x01);
    assert_eq!(packets[3][4], 0x00);
}

#[test]
fn effect_reports_are_20_bytes_long() {
    for model in MODELS {
        for effect in EFFECTS {
            for part in [NativeEffectPart::All, NativeEffectPart::Keys, NativeEffectPart::Logo] {
                let packets = native_effect_packets(
                    model,
                    effect,
                    part,
                    Period::from_secs(100),
                    color(),
                    NativeEffectStorage::User,
                );
                for packet in packets.unwrap_or_default() {
                    assert_eq!(packet.len(), 20);
                }
            }
        }
    }
}

#[test]
fn plain_descriptor_is_the_base_packet() {
    let base = native_effect_packet(
        KeyboardModel::GPro,
        NativeEffect::Ripple,
        NativeEffectPart::Logo,
        Period::from_millis(9),
        color(),
        NativeEffectStorage::Volatile,
    )
    .unwrap();
    let packets = native_effect_packets(
        KeyboardModel::GPro,
        NativeEffect::Ripple,
        NativeEffectPart::Logo,
        Period::from_millis(9),
        color(),
        NativeEffectStorage::Volatile,
    );
    assert_eq!(packets, Some(vec![base]));
}
