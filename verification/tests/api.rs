use logi_led::api::{
    commit_packets, set_all_keys_packets, set_fx_packets, set_gkeys_mode_packets,
    set_group_keys_packets, set_mn_key_packets, set_mr_key_packets, set_on_board_mode_packets,
    set_region_packets, set_startup_mode_packets,
};
use logi_led::keyset::set_keys_packets;
use logi_led::effects::{native_effect_packets, NativeEffect, NativeEffectPart, NativeEffectStorage};
use logi_led::model::KeyboardModel;
use logi_led::packet::{
    commit_packet, mn_packet, mr_packet, on_board_mode_packet, region_packet, set_keys_packet,
};
use logi_led::types::{Color, Key, KeyGroup, KeyValue, OnBoardMode, Period, StartupMode};

const MODELS: [KeyboardModel; 11] = [
    KeyboardModel::Unknown,
    KeyboardModel::G213,
    KeyboardModel::G410,
    KeyboardModel::G413,
    KeyboardModel::G512,
    KeyboardModel::G513,
    KeyboardModel::G610,
    KeyboardModel::G810,
    KeyboardModel::G815,
    KeyboardModel::G910,
    KeyboardModel::GPro,
];

const RED: Color = Color { red: 0xff, green: 0, blue: 0 };
const GREEN: Color = Color { red: 0, green: 0xff, blue: 0 };
const BLUE: Color = Color { red: 0, green: 0, blue: 0xff };

fn kv(key: Key, color: Color) -> KeyValue {
    KeyValue { key, color }
}

fn padded(bytes: &[u8], size: usize) -> Vec<u8> {
    let mut packet = bytes.to_vec();
    packet.resize(size, 0);
    packet
}

fn letters(count: usize, color: Color) -> Vec<KeyValue> {
    Key::all().into_iter().filter(|key| key.group() == 4).take(count).map(|key| kv(key, color)).collect()
}

#[test]
fn no_key_reports_on_g213_and_g413() {
    let keys: Vec<KeyValue> = Key::all().into_iter().map(|key| kv(key, RED)).collect();
    for model in [KeyboardModel::G213, KeyboardModel::G413] {
        assert!(set_keys_packets(model, &keys).is_empty());
        assert!(set_keys_packets(model, &keys[..1]).is_empty());
        assert!(set_group_keys_packets(model, KeyGroup::FKeys, RED).is_empty());
        assert!(set_all_keys_packets(model, RED).is_empty());
    }
}

#[test]
fn empty_batch_takes_no_report() {
    for model in MODELS {
        assert!(set_keys_packets(model, &[]).is_empty());
    }
}

#[test]
fn single_color_model_splits_by_color() {
    let keys = [kv(Key::A, RED), kv(Key::B, GREEN)];
    let packets = set_keys_packets(KeyboardModel::G815, &keys);
    assert_eq!(
        packets,
        vec![
            padded(&[0x11, 0xff, 0x10, 0x6c, 0xff, 0, 0, 0x01, 0xff], 20),
            padded(&[0x11, 0xff, 0x10, 0x6c, 0, 0xff, 0, 0x02, 0xff], 20),
        ]
    );
}

#[test]
fn single_color_model_keeps_order_of_first_occurrence() {
    let keys =
        [kv(Key::C, GREEN), kv(Key::A, RED), kv(Key::D, GREEN), kv(Key::B, BLUE), kv(Key::E, RED)];
    let packets = set_keys_packets(KeyboardModel::G815, &keys);
    assert_eq!(
        packets,
        vec![
            padded(&[0x11, 0xff, 0x10, 0x6c, 0, 0xff, 0, 0x03, 0x04, 0xff], 20),
            padded(&[0x11, 0xff, 0x10, 0x6c, 0xff, 0, 0, 0x01, 0x05, 0xff], 20),
            padded(&[0x11, 0xff, 0x10, 0x6c, 0, 0, 0xff, 0x02, 0xff], 20),
        ]
    );
}

#[test]
fn single_color_model_holds_13_keys_in_a_report() {
    let keys = letters(30, RED);
    let packets = set_keys_packets(KeyboardModel::G815, &keys);
    assert_eq!(packets.len(), 3);
    assert_eq!(packets[0], set_keys_packet(KeyboardModel::G815, &keys[..13]).unwrap());
    assert_eq!(packets[1], set_keys_packet(KeyboardModel::G815, &keys[13..26]).unwrap());
    assert_eq!(packets[2], set_keys_packet(KeyboardModel::G815, &keys[26..]).unwrap());
    assert_eq!(packets[0][19], 0x0d);
    assert_eq!(&packets[2][7..12], &[0x1b, 0x1c, 0x1d, 0x1e, 0xff]);
    for packet in &packets {
        assert_eq!(packet.len(), 20);
        assert_eq!(&packet[4..7], &[0xff, 0, 0]);
    }
}

#[test]
fn single_color_model_two_colors_many_keys() {
    let mut keys = letters(20, RED);
    keys.extend(letters(5, BLUE));
    let packets = set_keys_packets(KeyboardModel::G815, &keys);
    assert_eq!(packets.len(), 3);
    assert!(packets.len() >= 2);
    assert_eq!(&packets[0][4..7], &[0xff, 0, 0]);
    assert_eq!(&packets[1][4..7], &[0xff, 0, 0]);
    assert_eq!(&packets[2][4..7], &[0, 0, 0xff]);
}

#[test]
fn group_models_split_by_address_group() {
    let keys = [kv(Key::A, RED), kv(Key::Logo, GREEN), kv(Key::B, BLUE), kv(Key::Caps, RED)];
    let packets = set_keys_packets(KeyboardModel::G810, &keys);
    assert_eq!(
        packets,
        vec![
            padded(
                &[
                    0x12, 0xff, 0x0f, 0x3d, 0x00, 0x01, 0x00, 0x0e, 0x04, 0xff, 0, 0, 0x05, 0, 0,
                    0xff
                ],
                64
            ),
            padded(&[0x11, 0xff, 0x0c, 0x3a, 0x00, 0x10, 0x00, 0x01, 0x01, 0, 0xff, 0], 20),
            padded(&[0x12, 0xff, 0x0c, 0x3a, 0x00, 0x40, 0x00, 0x05, 0x03, 0xff, 0, 0], 64),
        ]
    );
}

#[test]
fn group_without_header_takes_no_report() {
    let keys = [kv(Key::Mute, RED), kv(Key::A, RED), kv(Key::G1, RED)];
    let packets = set_keys_packets(KeyboardModel::G410, &keys);
    assert_eq!(packets, vec![set_keys_packet(KeyboardModel::G410, &keys[1..2]).unwrap()]);
    assert!(set_keys_packets(KeyboardModel::G410, &keys[..1]).is_empty());
    assert!(set_keys_packets(KeyboardModel::Unknown, &keys).is_empty());
}

#[test]
fn one_group_takes_ceil_n_over_max_reports() {
    for model in [
        KeyboardModel::G410,
        KeyboardModel::G512,
        KeyboardModel::G513,
        KeyboardModel::G610,
        KeyboardModel::G810,
        KeyboardModel::G910,
        KeyboardModel::GPro,
    ] {
        for count in 1..=60usize {
            let keys = letters(count, GREEN);
            let packets = set_keys_packets(model, &keys);
            assert_eq!(packets.len(), (count + 13) / 14);
            for (index, packet) in packets.iter().enumerate() {
                let run = &keys[index * 14..(index * 14 + 14).min(count)];
                assert_eq!(packet.len(), 64);
                assert_eq!(packet, &set_keys_packet(model, run).unwrap());
                for (place, request) in run.iter().enumerate() {
                    assert_eq!(
                        &packet[8 + 4 * place..12 + 4 * place],
                        &[request.key.hid_code(), 0, 0xff, 0]
                    );
                }
                assert!(packet[8 + 4 * run.len()..].iter().all(|byte| *byte == 0));
            }
        }
        let logos = [kv(Key::Logo, RED), kv(Key::Logo2, RED)];
        assert_eq!(set_keys_packets(model, &logos).len(), 1);
        assert_eq!(set_keys_packets(model, &logos)[0].len(), 20);
    }
}

#[test]
fn logo_group_holds_three_keys_in_a_report() {
    let keys = [
        kv(Key::Logo, RED),
        kv(Key::Logo2, GREEN),
        kv(Key::Logo, BLUE),
        kv(Key::Logo2, RED),
        kv(Key::Logo, GREEN),
        kv(Key::Logo2, BLUE),
        kv(Key::Logo, RED),
    ];
    let packets = set_keys_packets(KeyboardModel::G810, &keys);
    assert_eq!(packets.len(), 3);
    assert_eq!(
        packets[0],
        vec![
            0x11, 0xff, 0x0c, 0x3a, 0x00, 0x10, 0x00, 0x01, 0x01, 0xff, 0, 0, 0x02, 0, 0xff, 0,
            0x01, 0, 0, 0xff
        ]
    );
    assert_eq!(
        packets[2],
        padded(&[0x11, 0xff, 0x0c, 0x3a, 0x00, 0x10, 0x00, 0x01, 0x01, 0xff, 0, 0], 20)
    );
}

#[test]
fn group_keys_follow_the_address_group() {
    let logo = set_group_keys_packets(KeyboardModel::G810, KeyGroup::Logo, RED);
    assert_eq!(
        logo,
        vec![padded(
            &[0x11, 0xff, 0x0c, 0x3a, 0x00, 0x10, 0x00, 0x01, 0x01, 0xff, 0, 0, 0x02, 0xff, 0, 0],
            20
        )]
    );
    let indicators = set_group_keys_packets(KeyboardModel::G810, KeyGroup::Indicators, RED);
    assert_eq!(indicators.len(), 1);
    assert_eq!(indicators[0].len(), 64);
    let multimedia = set_group_keys_packets(KeyboardModel::G810, KeyGroup::Multimedia, RED);
    assert_eq!(multimedia.len(), 1);
    assert!(set_group_keys_packets(KeyboardModel::G810, KeyGroup::GKeys, RED).is_empty());
    assert_eq!(set_group_keys_packets(KeyboardModel::G910, KeyGroup::GKeys, RED).len(), 1);
    let fkeys = set_group_keys_packets(KeyboardModel::G810, KeyGroup::FKeys, RED);
    assert_eq!(fkeys.len(), (107 + 13) / 14);
    for group in [
        KeyGroup::Modifiers,
        KeyGroup::Functions,
        KeyGroup::Arrows,
        KeyGroup::Numeric,
        KeyGroup::Keys,
    ] {
        assert!(set_group_keys_packets(KeyboardModel::G810, group, RED).is_empty());
    }
}

#[test]
fn all_keys_are_the_groups_in_order() {
    for model in MODELS {
        let mut expected: Vec<Vec<u8>> = Vec::new();
        for group in KeyGroup::all() {
            expected.extend(set_group_keys_packets(model, group, BLUE));
        }
        assert_eq!(set_all_keys_packets(model, BLUE), expected);
    }
    assert_eq!(set_all_keys_packets(KeyboardModel::G810, BLUE).len(), 1 + 1 + 1 + 8);
    assert_eq!(set_all_keys_packets(KeyboardModel::G410, BLUE).len(), 1 + 1 + 8);
    assert_eq!(set_all_keys_packets(KeyboardModel::G815, BLUE).len(), 1 + 1 + 1 + 1 + 9);
}

#[test]
fn commit_without_header_sends_nothing() {
    for model in [KeyboardModel::Unknown, KeyboardModel::G213, KeyboardModel::G413] {
        assert!(commit_packets(model).is_empty());
    }
    for model in MODELS {
        let expected: Vec<Vec<u8>> = commit_packet(model).into_iter().collect();
        assert_eq!(commit_packets(model), expected);
    }
    assert_eq!(
        commit_packets(KeyboardModel::G810),
        vec![padded(&[0x11, 0xff, 0x0c, 0x5a], 20)]
    );
}

#[test]
fn operations_with_at_most_one_report() {
    for model in MODELS {
        let region: Vec<Vec<u8>> = region_packet(model, 3, RED).into_iter().collect();
        assert_eq!(set_region_packets(model, 3, RED), region);
        let mr: Vec<Vec<u8>> = mr_packet(model, 1).into_iter().collect();
        assert_eq!(set_mr_key_packets(model, 1), mr);
        let mn: Vec<Vec<u8>> = mn_packet(model, 3).into_iter().collect();
        assert_eq!(set_mn_key_packets(model, 3), mn);
        let board: Vec<Vec<u8>> =
            on_board_mode_packet(model, OnBoardMode::Software).into_iter().collect();
        assert_eq!(set_on_board_mode_packets(model, OnBoardMode::Software), board);
    }
    assert_eq!(
        set_gkeys_mode_packets(KeyboardModel::G910, 1),
        vec![padded(&[0x11, 0xff, 0x08, 0x2e, 0x01], 20)]
    );
    assert!(set_gkeys_mode_packets(KeyboardModel::G910, 9).is_empty());
    assert_eq!(
        set_startup_mode_packets(KeyboardModel::GPro, StartupMode::Color),
        vec![padded(&[0x11, 0xff, 0x0d, 0x5a, 0x00, 0x01, 0x02], 20)]
    );
    assert!(set_startup_mode_packets(KeyboardModel::G815, StartupMode::Color).is_empty());
    assert_eq!(
        set_region_packets(KeyboardModel::G213, 0, BLUE),
        vec![padded(&[0x11, 0xff, 0x0c, 0x3a, 0x00, 0x01, 0, 0, 0xff], 20)]
    );
}

#[test]
fn effects_that_cannot_run_send_nothing() {
    for model in MODELS {
        for part in [NativeEffectPart::All, NativeEffectPart::Keys, NativeEffectPart::Logo] {
            let packets = native_effect_packets(
                model,
                NativeEffect::Cycle,
                part,
                Period::from_millis(40),
                GREEN,
                NativeEffectStorage::Volatile,
            );
            assert_eq!(
                set_fx_packets(
                    model,
                    NativeEffect::Cycle,
                    part,
                    Period::from_millis(40),
                    GREEN,
                    NativeEffectStorage::Volatile
                ),
                packets.unwrap_or_default()
            );
        }
    }
    assert!(set_fx_packets(
        KeyboardModel::Unknown,
        NativeEffect::Color,
        NativeEffectPart::Keys,
        Period::from_millis(0),
        RED,
        NativeEffectStorage::Volatile
    )
    .is_empty());
}

#[test]
fn every_operation_sends_reports_of_20_or_64_bytes() {
    let keys: Vec<KeyValue> = Key::all().into_iter().map(|key| kv(key, RED)).collect();
    for model in MODELS {
        let mut packets = set_keys_packets(model, &keys);
        packets.extend(set_all_keys_packets(model, GREEN));
        packets.extend(commit_packets(model));
        packets.extend(set_region_packets(model, 1, BLUE));
        packets.extend(set_mr_key_packets(model, 0));
        packets.extend(set_mn_key_packets(model, 1));
        packets.extend(set_gkeys_mode_packets(model, 1));
        packets.extend(set_startup_mode_packets(model, StartupMode::Wave));
        packets.extend(set_on_board_mode_packets(model, OnBoardMode::Board));
        packets.extend(set_fx_packets(
            model,
            NativeEffect::Ripple,
            NativeEffectPart::All,
            Period::from_secs(3),
            BLUE,
            NativeEffectStorage::User,
        ));
        for packet in packets {
            assert!(packet.len() == 20 || packet.len() == 64);
        }
    }
}
