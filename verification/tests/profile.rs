use logi_led::api::{command_packets, commands_packets, Command, KeyboardApi, ReportQueue};
use logi_led::effects::{NativeEffect, NativeEffectPart, NativeEffectStorage};
use logi_led::model::KeyboardModel;
use logi_led::profile::{
    finish_profile, parse_profile, profile_reports, profile_result, profile_script,
    read_profile_line, run_commands, unknown_command_message, LineOutcome, ProfileError,
    ProfileState,
};
use logi_led::structured::{
    apply_toml_profile, profile_commands, EffectEntry, GroupEntry, KeyEntry, Profile, RegionEntry,
};
use logi_led::types::{Color, Key, KeyGroup, KeyValue, OnBoardMode, Period, StartupMode};

const MODELS: [KeyboardModel; 11] = [
    KeyboardModel::Unknown,
    KeyboardModel::G213,
    KeyboardModel::G410,
    KeyboardModel::G413,
    KeyboardModel::G512,
    KeyboardModel::G513,
    KeyboardModel::G610,
    KeyboardModel::G810,
    KeyboardModel::G815,
    KeyboardModel::G910,
    KeyboardModel::GPro,
];

fn padded(bytes: &[u8], size: usize) -> Vec<u8> {
    let mut packet = bytes.to_vec();
    packet.resize(size, 0);
    packet
}

#[derive(Default)]
struct MockKeyboard {
    commits: usize,
    all_calls: Vec<Color>,
    group_calls: Vec<(KeyGroup, Color)>,
    key_calls: Vec<Vec<KeyValue>>,
    region_calls: Vec<(u8, Color)>,
    fx_calls: Vec<(
        NativeEffect,
        NativeEffectPart,
        Period,
        Color,
        NativeEffectStorage,
    )>,
}

impl KeyboardApi for MockKeyboard {
    type Error = String;

    fn commit(&mut self) -> Result<(), String> {
        self.commits += 1;
        Ok(())
    }

    fn set_all_keys(&mut self, color: Color) -> Result<(), String> {
        self.all_calls.push(color);
        Ok(())
    }

    fn set_group_keys(&mut self, group: KeyGroup, color: Color) -> Result<(), String> {
        self.group_calls.push((group, color));
        Ok(())
    }

    fn set_keys(&mut self, keys: &[KeyValue]) -> Result<(), String> {
        self.key_calls.push(keys.to_vec());
        Ok(())
    }

    fn set_region(&mut self, region: u8, color: Color) -> Result<(), String> {
        self.region_calls.push((region, color));
        Ok(())
    }

    fn set_mr_key(&mut self, _value: u8) -> Result<(), String> {
        Ok(())
    }

    fn set_mn_key(&mut self, _value: u8) -> Result<(), String> {
        Ok(())
    }

    fn set_gkeys_mode(&mut self, _value: u8) -> Result<(), String> {
        Ok(())
    }

    fn set_startup_mode(&mut self, _mode: StartupMode) -> Result<(), String> {
        Ok(())
    }

    fn set_on_board_mode(&mut self, _mode: OnBoardMode) -> Result<(), String> {
        Ok(())
    }

    fn set_fx(
        &mut self,
        effect: NativeEffect,
        part: NativeEffectPart,
        period: Period,
        color: Color,
        storage: NativeEffectStorage,
    ) -> Result<(), String> {
        self.fx_calls.push((effect, part, period, color, storage));
        Ok(())
    }
}

/// A keyboard that fails from a given call on and keeps what it was asked.
struct FailingKeyboard {
    asked: Vec<Command>,
    fail_at: usize,
}

impl FailingKeyboard {
    fn new(fail_at: usize) -> Self {
        FailingKeyboard { asked: Vec::new(), fail_at }
    }

    fn ask(&mut self, command: Command) -> Result<(), String> {
        self.asked.push(command);
        if self.asked.len() >= self.fail_at {
            Err(format!("write failed at call {}", self.asked.len()))
        } else {
            Ok(())
        }
    }
}

impl KeyboardApi for FailingKeyboard {
    type Error = String;

    fn commit(&mut self) -> Result<(), String> {
        self.ask(Command::Commit)
    }

    fn set_all_keys(&mut self, color: Color) -> Result<(), String> {
        self.ask(Command::SetAllKeys(color))
    }

    fn set_group_keys(&mut self, group: KeyGroup, color: Color) -> Result<(), String> {
        self.ask(Command::SetGroupKeys(group, color))
    }

    fn set_keys(&mut self, keys: &[KeyValue]) -> Result<(), String> {
        self.ask(Command::SetKeys(keys.to_vec()))
    }

    fn set_region(&mut self, region: u8, color: Color) -> Result<(), String> {
        self.ask(Command::SetRegion(region, color))
    }

    fn set_mr_key(&mut self, value: u8) -> Result<(), String> {
        self.ask(Command::SetMrKey(value))
    }

    fn set_mn_key(&mut self, value: u8) -> Result<(), String> {
        self.ask(Command::SetMnKey(value))
    }

    fn set_gkeys_mode(&mut self, value: u8) -> Result<(), String> {
        self.ask(Command::SetGKeysMode(value))
    }

    fn set_startup_mode(&mut self, mode: StartupMode) -> Result<(), String> {
        self.ask(Command::SetStartupMode(mode))
    }

    fn set_on_board_mode(&mut self, mode: OnBoardMode) -> Result<(), String> {
        self.ask(Command::SetOnBoardMode(mode))
    }

    fn set_fx(
        &mut self,
        effect: NativeEffect,
        part: NativeEffectPart,
        period: Period,
        color: Color,
        storage: NativeEffectStorage,
    ) -> Result<(), String> {
        self.ask(Command::SetFx(effect, part, period, color, storage))
    }
}

#[test]
fn parse_keys_and_commit() {
    let input = "k a ff0000\nk b 00ff00\nc\n";
    let mut mock = MockKeyboard::default();
    parse_profile(&mut mock, input, true).unwrap();

    assert_eq!(mock.key_calls.len(), 1);
    assert_eq!(
        mock.key_calls[0],
        vec![
            KeyValue {
                key: Key::A,
                color: Color {
                    red: 0xff,
                    green: 0x00,
                    blue: 0x00
                }
            },
            KeyValue {
                key: Key::B,
                color: Color {
                    red: 0x00,
                    green: 0xff,
                    blue: 0x00
                }
            },
        ]
    );
    assert_eq!(mock.commits, 1);
}

#[test]
fn parse_group_region_effect() {
    let input = "a 010203\ng arrows ff0000\nr 2 00ff00\nfx color keys ff0000\n";
    let mut mock = MockKeyboard::default();
    parse_profile(&mut mock, input, true).unwrap();

    assert_eq!(
        mock.all_calls,
        vec![Color {
            red: 1,
            green: 2,
            blue: 3
        }]
    );
    assert_eq!(
        mock.group_calls,
        vec![(
            KeyGroup::Arrows,
            Color {
                red: 0xff,
                green: 0x00,
                blue: 0x00
            }
        )]
    );
    assert_eq!(
        mock.region_calls,
        vec![(
            2,
            Color {
                red: 0x00,
                green: 0xff,
                blue: 0x00
            }
        )]
    );
    assert_eq!(mock.fx_calls.len(), 1);
    let (eff, part, period, color, storage) = &mock.fx_calls[0];
    assert_eq!(*eff, NativeEffect::Color);
    assert_eq!(*part, NativeEffectPart::Keys);
    assert_eq!(*period, Period::from_millis(0));
    assert_eq!(
        *color,
        Color {
            red: 0xff,
            green: 0x00,
            blue: 0x00
        }
    );
    assert_eq!(*storage, NativeEffectStorage::Volatile);
}

#[test]
fn unknown_command_non_strict() {
    let input = "foo\n";
    let mut mock = MockKeyboard::default();
    parse_profile(&mut mock, input, false).unwrap();
    assert!(mock.commits == 0);
    assert!(mock.key_calls.is_empty());
}

#[test]
fn unknown_command_strict() {
    let input = "bar\n";
    let mut mock = MockKeyboard::default();
    let err = parse_profile(&mut mock, input, true).unwrap_err();
    match err {
        ProfileError::UnknownCommand(command) => {
            assert_eq!(command, "bar");
            assert!(unknown_command_message(&command).contains("unknown command"));
            assert_eq!(unknown_command_message(&command), "unknown command: bar");
        }
        ProfileError::Keyboard(error) => panic!("the keyboard cannot fail: {error}"),
    }
}

#[test]
fn apply_toml_profile_basic() {
    let profile = Profile {
        all: Some("010203".to_string()),
        groups: vec![GroupEntry {
            group: "arrows".to_string(),
            color: "ff0000".to_string(),
        }],
        key: vec![KeyEntry {
            key: "a".to_string(),
            color: "00ff00".to_string(),
        }],
        regions: vec![RegionEntry {
            region: "2".to_string(),
            color: "0000ff".to_string(),
        }],
        effects: vec![EffectEntry {
            effect: "color".to_string(),
            part: "keys".to_string(),
            period: None,
            color: Some("ff00ff".to_string()),
            storage: None,
        }],
        mr: None,
        mn: None,
        gkeys_mode: None,
        startup_mode: None,
        on_board_mode: None,
    };

    let mut mock = MockKeyboard::default();
    apply_toml_profile(&mut mock, profile).unwrap();

    assert_eq!(mock.commits, 1);
    assert_eq!(
        mock.all_calls,
        vec![Color {
            red: 1,
            green: 2,
            blue: 3,
        }]
    );
    assert_eq!(
        mock.group_calls,
        vec![(
            KeyGroup::Arrows,
            Color {
                red: 0xff,
                green: 0x00,
                blue: 0x00,
            },
        )]
    );
    assert_eq!(mock.key_calls.len(), 1);
    assert_eq!(
        mock.key_calls[0],
        vec![KeyValue {
            key: Key::A,
            color: Color {
                red: 0x00,
                green: 0xff,
                blue: 0x00,
            },
        }]
    );
    assert_eq!(
        mock.region_calls,
        vec![(
            2,
            Color {
                red: 0x00,
                green: 0x00,
                blue: 0xff,
            },
        )]
    );
    assert_eq!(mock.fx_calls.len(), 1);
    let (eff, part, period, color, storage) = &mock.fx_calls[0];
    assert_eq!(*eff, NativeEffect::Color);
    assert_eq!(*part, NativeEffectPart::Keys);
    assert_eq!(*period, Period::from_millis(0));
    assert_eq!(
        *color,
        Color {
            red: 0xff,
            green: 0x00,
            blue: 0xff,
        }
    );
    assert_eq!(*storage, NativeEffectStorage::Volatile);
}

#[test]
fn script_lists_commands_in_order() {
    let script = profile_script("k a ff0000\nk b 00ff00\nc\nmr 1\n", true);
    let red = Color::new(0xff, 0, 0);
    let green = Color::new(0, 0xff, 0);
    assert_eq!(
        script.commands,
        vec![
            Command::SetKeys(vec![
                KeyValue { key: Key::A, color: red },
                KeyValue { key: Key::B, color: green },
            ]),
            Command::Commit,
            Command::SetMrKey(1),
        ]
    );
    assert!(script.skipped.is_empty());
    assert_eq!(script.error, None);
}

#[test]
fn script_flushes_waiting_keys_at_the_end() {
    let script = profile_script("k logo 0000ff", false);
    assert_eq!(
        script.commands,
        vec![Command::SetKeys(vec![KeyValue {
            key: Key::Logo,
            color: Color::new(0, 0, 0xff),
        }])]
    );
}

#[test]
fn script_strict_stops_at_unknown_command() {
    let script = profile_script("a red\nnope 1 2\na blue\nk a red\n", true);
    assert_eq!(script.commands, vec![Command::SetAllKeys(Color::new(0xff, 0, 0))]);
    assert_eq!(script.error, Some("nope 1 2".to_string()));
    assert!(script.skipped.is_empty());
}

#[test]
fn script_lenient_passes_unknown_commands_over() {
    let script = profile_script("a red\n  nope 1 2  # what\nvar x\na blue\n", false);
    assert_eq!(
        script.commands,
        vec![
            Command::SetAllKeys(Color::new(0xff, 0, 0)),
            Command::SetAllKeys(Color::new(0, 0, 0xff)),
        ]
    );
    assert_eq!(script.skipped, vec!["nope 1 2".to_string(), "var x".to_string()]);
    assert_eq!(script.error, None);
}

#[test]
fn script_comments_and_blank_lines() {
    let script = profile_script("# all red\n\n   \t\r\na red # trailing\n#c\n", true);
    assert_eq!(script.commands, vec![Command::SetAllKeys(Color::new(0xff, 0, 0))]);
    assert_eq!(script.error, None);
}

#[test]
fn script_variables_are_replaced() {
    let script = profile_script("var main 00ff00\ng fkeys $main\nk a $other\nr 1 $main\n", false);
    let green = Color::new(0, 0xff, 0);
    assert_eq!(
        script.commands,
        vec![Command::SetGroupKeys(KeyGroup::FKeys, green), Command::SetRegion(1, green)]
    );
}

#[test]
fn script_variable_set_twice_keeps_last_value() {
    let script = profile_script("var c red\nvar c blue\na $c\n", true);
    assert_eq!(script.commands, vec![Command::SetAllKeys(Color::new(0, 0, 0xff))]);
}

#[test]
fn script_missing_argument_is_unknown_command() {
    let script = profile_script("mr\n", true);
    assert_eq!(script.error, Some("mr".to_string()));
    let script = profile_script("g arrows\n", true);
    assert_eq!(script.error, Some("g arrows".to_string()));
}

#[test]
fn script_arguments_that_make_no_sense_ask_nothing() {
    let script = profile_script("a nocolor\nmr x\nsm later\nfx nothing keys\n", true);
    assert!(script.commands.is_empty());
    assert_eq!(script.error, None);
}

#[test]
fn script_modes() {
    let script = profile_script("sm wave\nobm software\ngkm 1\nmn 0x03\n", true);
    assert_eq!(
        script.commands,
        vec![
            Command::SetStartupMode(StartupMode::Wave),
            Command::SetOnBoardMode(OnBoardMode::Software),
            Command::SetGKeysMode(1),
            Command::SetMnKey(3),
        ]
    );
}

#[test]
fn script_effect_argument_order() {
    let white = Color::new(0xff, 0xff, 0xff);
    let script = profile_script(
        "fx color logo ff0000\nfx breathing keys 00ff00 2s\nfx cycle all 500ms\nfx h-wave keys 0a 0000ff user\n",
        true,
    );
    assert_eq!(
        script.commands,
        vec![
            Command::SetFx(
                NativeEffect::Color,
                NativeEffectPart::Logo,
                Period::from_millis(0),
                Color::new(0xff, 0, 0),
                NativeEffectStorage::Volatile,
            ),
            Command::SetFx(
                NativeEffect::Breathing,
                NativeEffectPart::Keys,
                Period::from_secs(2),
                Color::new(0, 0xff, 0),
                NativeEffectStorage::Volatile,
            ),
            Command::SetFx(
                NativeEffect::Cycle,
                NativeEffectPart::All,
                Period::from_millis(500),
                white,
                NativeEffectStorage::Volatile,
            ),
            Command::SetFx(
                NativeEffect::HWave,
                NativeEffectPart::Keys,
                Period::from_millis(0x0a << 8),
                Color::new(0, 0, 0xff),
                NativeEffectStorage::User,
            ),
        ]
    );
}

#[test]
fn feed_line_by_line() {
    let mut state = ProfileState::new();
    assert_eq!(state.feed_line("k a red\n"), LineOutcome::Commands(vec![]));
    assert_eq!(state.feed_line("what now\n"), LineOutcome::Unknown("what now".to_string()));
    assert_eq!(
        state.feed_line("c"),
        LineOutcome::Commands(vec![
            Command::SetKeys(vec![KeyValue { key: Key::A, color: Color::new(0xff, 0, 0) }]),
            Command::Commit,
        ])
    );
    assert_eq!(state.feed_line("c"), LineOutcome::Commands(vec![Command::Commit]));
    assert!(state.finish().is_empty());
}

#[test]
fn keyboard_failure_stops_the_profile() {
    let mut kbd = FailingKeyboard::new(2);
    let err = parse_profile(&mut kbd, "c\nmr 1\nc\n", false).unwrap_err();
    match err {
        ProfileError::Keyboard(error) => assert_eq!(error, "write failed at call 2"),
        ProfileError::UnknownCommand(command) => panic!("no command is unknown: {command}"),
    }
    assert_eq!(kbd.asked, vec![Command::Commit, Command::SetMrKey(1)]);
}

#[test]
fn keyboard_is_asked_for_the_script() {
    let text = "var c 102030\na $c\ng logo $c\nk esc $c\nr 1 $c\nmr 0\nmn 1\ngkm 1\nsm wave\nobm board\nfx off all\nc\nk f1 red\n";
    let script = profile_script(text, true);
    assert_eq!(script.commands.len(), 12);
    let mut kbd = FailingKeyboard::new(usize::MAX);
    assert_eq!(parse_profile(&mut kbd, text, true).unwrap(), Vec::<String>::new());
    assert_eq!(kbd.asked, script.commands);

    let mut early = FailingKeyboard::new(5);
    assert!(parse_profile(&mut early, text, true).is_err());
    assert_eq!(early.asked, script.commands[..5].to_vec());

    let mut direct = FailingKeyboard::new(usize::MAX);
    assert_eq!(run_commands(&mut direct, &script.commands), Ok(()));
    assert_eq!(direct.asked, script.commands);
}

#[test]
fn strict_profile_carries_out_what_comes_before_the_unknown_command() {
    let mut kbd = FailingKeyboard::new(usize::MAX);
    let err = parse_profile(&mut kbd, "c\nk a red\nwhat\nc\n", true).unwrap_err();
    match err {
        ProfileError::UnknownCommand(command) => assert_eq!(command, "what"),
        ProfileError::Keyboard(error) => panic!("the keyboard cannot fail: {error}"),
    }
    assert_eq!(kbd.asked, vec![Command::Commit]);
}

#[test]
fn profile_line_by_line() {
    let mut kbd = FailingKeyboard::new(4);
    let mut state = ProfileState::new();
    assert!(matches!(read_profile_line(&mut state, &mut kbd, "k a red\n", true), Ok(None)));
    assert!(kbd.asked.is_empty());
    match read_profile_line(&mut state, &mut kbd, "huh\n", false) {
        Ok(Some(command)) => assert_eq!(command, "huh"),
        _ => panic!("an unknown command is passed over"),
    }
    match read_profile_line(&mut state, &mut kbd, " huh # so\n", true) {
        Err(ProfileError::UnknownCommand(command)) => assert_eq!(command, "huh"),
        _ => panic!("an unknown command stops a strict reading"),
    }
    assert!(matches!(read_profile_line(&mut state, &mut kbd, "c\n", true), Ok(None)));
    assert_eq!(
        kbd.asked,
        vec![
            Command::SetKeys(vec![KeyValue { key: Key::A, color: Color::new(0xff, 0, 0) }]),
            Command::Commit,
        ]
    );
    assert!(matches!(read_profile_line(&mut state, &mut kbd, "k b red\n", true), Ok(None)));
    assert!(matches!(read_profile_line(&mut state, &mut kbd, "mr 1\n", true), Ok(None)));
    match read_profile_line(&mut state, &mut kbd, "c\n", true) {
        Err(ProfileError::Keyboard(error)) => assert_eq!(error, "write failed at call 4"),
        _ => panic!("the keyboard fails at the fourth call"),
    }
    assert_eq!(kbd.asked.len(), 4);
    assert_eq!(finish_profile(state, &mut kbd), Ok(()));
    assert_eq!(kbd.asked.len(), 4);

    let mut waiting = ProfileState::new();
    let mut other = FailingKeyboard::new(usize::MAX);
    assert!(matches!(read_profile_line(&mut waiting, &mut other, "k b red", true), Ok(None)));
    assert_eq!(finish_profile(waiting, &mut other), Ok(()));
    assert_eq!(
        other.asked,
        vec![Command::SetKeys(vec![KeyValue { key: Key::B, color: Color::new(0xff, 0, 0) }])]
    );
}

#[test]
fn profile_reports_are_those_of_its_commands() {
    let text = "k a ff0000\nk logo 00ff00\nc\nfx color keys 0000ff\nnope\n";
    let outcome = profile_reports(KeyboardModel::G810, text, false);
    assert_eq!(
        outcome.reports,
        vec![
            padded(&[0x12, 0xff, 0x0f, 0x3d, 0x00, 0x01, 0x00, 0x0e, 0x04, 0xff, 0, 0], 64),
            padded(&[0x11, 0xff, 0x0c, 0x3a, 0x00, 0x10, 0x00, 0x01, 0x01, 0, 0xff, 0], 20),
            padded(&[0x11, 0xff, 0x0c, 0x5a], 20),
            vec![
                0x11, 0xff, 0x0d, 0x3c, 0x00, 0x01, 0, 0, 0xff, 0, 0, 0, 0, 0x00, 0x64, 0, 0, 0,
                0, 0
            ],
        ]
    );
    assert_eq!(outcome.skipped, vec!["nope".to_string()]);
    assert_eq!(outcome.error, None);

    let strict = profile_reports(KeyboardModel::G213, text, true);
    assert_eq!(strict.reports.len(), 1);
    assert_eq!(strict.error, Some("nope".to_string()));

    for model in MODELS {
        let script = profile_script(text, false);
        let mut expected: Vec<Vec<u8>> = Vec::new();
        for command in &script.commands {
            expected.extend(command_packets(model, command));
        }
        assert_eq!(profile_reports(model, text, false).reports, expected);
        assert_eq!(commands_packets(model, &script.commands), expected);
    }
}

#[test]
fn report_queue_keeps_the_reports_of_a_profile() {
    let text = "a red\nk a ff0000\nmr 1\nr 1 blue\nsm color\nc\n";
    for model in MODELS {
        let mut queue = ReportQueue::new(model);
        assert_eq!(queue.model(), model);
        assert!(queue.reports().is_empty());
        assert!(parse_profile(&mut queue, text, true).is_ok());
        assert_eq!(queue.model(), model);
        assert_eq!(queue.reports(), &profile_reports(model, text, true).reports);
        assert_eq!(queue.into_reports(), profile_reports(model, text, true).reports);
    }
}

#[test]
fn report_queue_operations() {
    let red = Color::new(0xff, 0, 0);
    let mut queue = ReportQueue::new(KeyboardModel::G213);
    assert!(queue.commit().is_ok());
    assert!(queue.set_keys(&[KeyValue { key: Key::A, color: red }]).is_ok());
    assert!(queue.set_all_keys(red).is_ok());
    assert!(queue.set_group_keys(KeyGroup::Logo, red).is_ok());
    assert!(queue.set_mr_key(1).is_ok());
    assert!(queue.set_mn_key(1).is_ok());
    assert!(queue.set_gkeys_mode(1).is_ok());
    assert!(queue.set_on_board_mode(OnBoardMode::Board).is_ok());
    assert!(queue.reports().is_empty());
    assert!(queue.set_region(4, red).is_ok());
    assert!(queue.set_startup_mode(StartupMode::Wave).is_ok());
    assert!(queue
        .set_fx(
            NativeEffect::Color,
            NativeEffectPart::All,
            Period::from_millis(0),
            red,
            NativeEffectStorage::Volatile
        )
        .is_ok());
    assert_eq!(
        queue.into_reports(),
        vec![
            padded(&[0x11, 0xff, 0x0c, 0x3a, 0x04, 0x01, 0xff, 0, 0], 20),
            padded(&[0x11, 0xff, 0x0d, 0x5a, 0x00, 0x01, 0x01], 20),
            vec![
                0x11, 0xff, 0x0c, 0x3c, 0x00, 0x01, 0xff, 0, 0, 0, 0, 0, 0, 0x00, 0x64, 0, 0, 0,
                0, 0
            ],
        ]
    );

    let mut g810 = ReportQueue::new(KeyboardModel::G810);
    assert!(g810.set_keys(&[KeyValue { key: Key::A, color: red }]).is_ok());
    assert!(g810.commit().is_ok());
    assert_eq!(
        g810.into_reports(),
        vec![
            padded(&[0x12, 0xff, 0x0f, 0x3d, 0x00, 0x01, 0x00, 0x0e, 0x04, 0xff, 0, 0], 64),
            padded(&[0x11, 0xff, 0x0c, 0x5a], 20),
        ]
    );
}

#[test]
fn profile_passes_over_reports_skipped_commands() {
    let mut mock = MockKeyboard::default();
    let skipped = parse_profile(&mut mock, "foo\nc\nbar baz\n", false).unwrap();
    assert_eq!(skipped, vec!["foo".to_string(), "bar baz".to_string()]);
    assert_eq!(mock.commits, 1);
}

#[test]
fn run_commands_reaches_every_operation() {
    let mut mock = MockKeyboard::default();
    let commands = vec![
        Command::SetMrKey(1),
        Command::SetMnKey(2),
        Command::SetGKeysMode(0),
        Command::SetStartupMode(StartupMode::Color),
        Command::SetOnBoardMode(OnBoardMode::Board),
        Command::Commit,
    ];
    assert_eq!(run_commands(&mut mock, &commands), Ok(()));
    assert_eq!(mock.commits, 1);
}

#[test]
fn structured_profile_commands_in_order() {
    let profile = Profile {
        all: Some("nocolor".to_string()),
        groups: vec![
            GroupEntry { group: "f_keys".to_string(), color: "red".to_string() },
            GroupEntry { group: "nothing".to_string(), color: "red".to_string() },
        ],
        key: vec![
            KeyEntry { key: "esc".to_string(), color: "#0000ff".to_string() },
            KeyEntry { key: "esc".to_string(), color: "bad".to_string() },
            KeyEntry { key: "F1".to_string(), color: "80".to_string() },
        ],
        regions: vec![],
        effects: vec![EffectEntry {
            effect: "ripple".to_string(),
            part: "logo".to_string(),
            period: Some("1s".to_string()),
            color: None,
            storage: Some("USER".to_string()),
        }],
        mr: Some(1),
        mn: Some(7),
        gkeys_mode: Some(0),
        startup_mode: Some("color".to_string()),
        on_board_mode: Some("board".to_string()),
    };
    assert_eq!(
        profile_commands(&profile),
        vec![
            Command::SetGroupKeys(KeyGroup::FKeys, Color::new(0xff, 0, 0)),
            Command::SetKeys(vec![
                KeyValue { key: Key::Esc, color: Color::new(0, 0, 0xff) },
                KeyValue { key: Key::F1, color: Color::new(0x80, 0x80, 0x80) },
            ]),
            Command::SetFx(
                NativeEffect::Ripple,
                NativeEffectPart::Logo,
                Period::from_secs(1),
                Color::new(0xff, 0xff, 0xff),
                NativeEffectStorage::User,
            ),
            Command::SetMrKey(1),
            Command::SetMnKey(7),
            Command::SetGKeysMode(0),
            Command::SetStartupMode(StartupMode::Color),
            Command::SetOnBoardMode(OnBoardMode::Board),
            Command::Commit,
        ]
    );
}

#[test]
fn structured_profile_without_entries_commits() {
    let profile = Profile {
        all: None,
        groups: vec![],
        key: vec![],
        regions: vec![],
        effects: vec![],
        mr: None,
        mn: None,
        gkeys_mode: None,
        startup_mode: None,
        on_board_mode: None,
    };
    assert_eq!(profile_commands(&profile), vec![Command::Commit]);
}

#[test]
fn profile_result_by_answer_and_script() {
    let clean = profile_script("foo\n", false);
    assert_eq!(
        profile_result::<String>(clean.clone(), Ok(())).unwrap(),
        vec!["foo".to_string()]
    );
    match profile_result(clean, Err("gone".to_string())) {
        Err(ProfileError::Keyboard(error)) => assert_eq!(error, "gone"),
        _ => panic!("the failure of the keyboard comes first"),
    }
    let stopped = profile_script("foo\n", true);
    match profile_result::<String>(stopped.clone(), Ok(())) {
        Err(ProfileError::UnknownCommand(command)) => assert_eq!(command, "foo"),
        _ => panic!("a strict reading stops at the unknown command"),
    }
    match profile_result(stopped, Err("gone".to_string())) {
        Err(ProfileError::Keyboard(error)) => assert_eq!(error, "gone"),
        _ => panic!("the failure of the keyboard comes first"),
    }
}
