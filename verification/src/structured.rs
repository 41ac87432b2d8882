//! Profiles written as tables and lists.

use crate::api::{Command, commands_view, CommandView, KeyboardApi};
use crate::effects::NativeEffectStorage;
use crate::parser::{
    parse_board_mode, parse_color, parse_key, parse_key_group, parse_native_effect,
    parse_native_effect_part, parse_native_effect_storage, parse_period, parse_startup_mode,
    parse_u8, spec_parse_board_mode, spec_parse_color, spec_parse_key, spec_parse_key_group,
    spec_parse_native_effect, spec_parse_native_effect_part, spec_parse_native_effect_storage,
    spec_parse_period, spec_parse_startup_mode, spec_parse_u8,
};
use crate::profile::{no_commands, run_commands, spec_asked_for, spec_maybe};
use crate::types::{Color, KeyValue, Period};
use vstd::prelude::*;

verus! {

/// One colour for a group of keys, as a structured profile writes it.
#[derive(Clone, Debug)]
pub struct GroupEntry {
    pub group: String,
    pub color: String,
}

/// One colour for a key, as a structured profile writes it.
#[derive(Clone, Debug)]
pub struct KeyEntry {
    pub key: String,
    pub color: String,
}

/// One colour for a region, as a structured profile writes it.
#[derive(Clone, Debug)]
pub struct RegionEntry {
    pub region: String,
    pub color: String,
}

/// One built-in effect, as a structured profile writes it.
#[derive(Clone, Debug)]
pub struct EffectEntry {
    pub effect: String,
    pub part: String,
    pub period: Option<String>,
    pub color: Option<String>,
    pub storage: Option<String>,
}

/// A structured profile: what a file of tables and lists asks for.
#[derive(Clone, Debug)]
pub struct Profile {
    pub all: Option<String>,
    pub groups: Vec<GroupEntry>,
    pub key: Vec<KeyEntry>,
    pub regions: Vec<RegionEntry>,
    pub effects: Vec<EffectEntry>,
    pub mr: Option<u8>,
    pub mn: Option<u8>,
    pub gkeys_mode: Option<u8>,
    pub startup_mode: Option<String>,
    pub on_board_mode: Option<String>,
}

/// What a text gives where it may be missing.
pub open spec fn spec_optional_text<V>(
    text: Option<String>,
    parse: spec_fn(Seq<char>) -> Option<V>,
) -> Option<V> {
    match text {
        Some(text) => parse(text@),
        None => None,
    }
}

/// The command of a group entry; none where group or colour makes no sense.
pub open spec fn spec_group_entry(entry: GroupEntry) -> Option<CommandView> {
    match (spec_parse_key_group(entry.group@), spec_parse_color(entry.color@)) {
        (Some(group), Some(color)) => Some(CommandView::SetGroupKeys(group, color)),
        _ => None,
    }
}

/// The request of a key entry; none where key or colour makes no sense.
pub open spec fn spec_key_entry(entry: KeyEntry) -> Option<KeyValue> {
    match (spec_parse_key(entry.key@), spec_parse_color(entry.color@)) {
        (Some(key), Some(color)) => Some(KeyValue { key, color }),
        _ => None,
    }
}

/// The command of a region entry; none where region or colour makes no
/// sense.
pub open spec fn spec_region_entry(entry: RegionEntry) -> Option<CommandView> {
    match (spec_parse_u8(entry.region@), spec_parse_color(entry.color@)) {
        (Some(region), Some(color)) => Some(CommandView::SetRegion(region, color)),
        _ => None,
    }
}

/// The command of an effect entry; none where effect or part makes no
/// sense. A period that is missing or wrong is zero, a colour white, a
/// storage none.
pub open spec fn spec_effect_entry(entry: EffectEntry) -> Option<CommandView> {
    match (spec_parse_native_effect(entry.effect@), spec_parse_native_effect_part(entry.part@)) {
        (Some(effect), Some(part)) => Some(
            CommandView::SetFx(
                effect,
                part,
                match spec_optional_text(entry.period, |s: Seq<char>| spec_parse_period(s)) {
                    Some(period) => period,
                    None => Period { millis: 0 },
                },
                match spec_optional_text(entry.color, |s: Seq<char>| spec_parse_color(s)) {
                    Some(color) => color,
                    None => Color::white(),
                },
                match spec_optional_text(
                    entry.storage,
                    |s: Seq<char>| spec_parse_native_effect_storage(s),
                ) {
                    Some(storage) => storage,
                    None => NativeEffectStorage::Volatile,
                },
            ),
        ),
        _ => None,
    }
}

/// The key colours that a structured profile asks for, as one batch.
pub open spec fn spec_key_entries(entries: Seq<KeyEntry>) -> Seq<CommandView> {
    let requests = entries.filter_map(|entry: KeyEntry| spec_key_entry(entry));
    if requests.len() > 0 {
        seq![CommandView::SetKeys(requests)]
    } else {
        Seq::empty()
    }
}

/// The settings of a structured profile that stand for themselves: the MR
/// key, the M-keys, the mode of the G-keys, the start-up mode and the
/// on-board mode, in this order, each where the profile has it.
pub open spec fn spec_setting_commands(profile: Profile) -> Seq<CommandView> {
    spec_maybe(
        match profile.mr {
            Some(value) => Some(CommandView::SetMrKey(value)),
            None => None,
        },
    ) + spec_maybe(
        match profile.mn {
            Some(value) => Some(CommandView::SetMnKey(value)),
            None => None,
        },
    ) + spec_maybe(
        match profile.gkeys_mode {
            Some(value) => Some(CommandView::SetGKeysMode(value)),
            None => None,
        },
    ) + spec_maybe(
        match spec_optional_text(profile.startup_mode, |s: Seq<char>| spec_parse_startup_mode(s)) {
            Some(mode) => Some(CommandView::SetStartupMode(mode)),
            None => None,
        },
    ) + spec_maybe(
        match spec_optional_text(profile.on_board_mode, |s: Seq<char>| spec_parse_board_mode(s)) {
            Some(mode) => Some(CommandView::SetOnBoardMode(mode)),
            None => None,
        },
    )
}

/// The commands of a structured profile: the colour for all keys, the
/// groups, the keys as one batch, the regions, the effects, the settings,
/// and a commit at the end. An entry that makes no sense is passed over.
pub open spec fn spec_profile_commands(profile: Profile) -> Seq<CommandView> {
    spec_maybe(
        match spec_optional_text(profile.all, |s: Seq<char>| spec_parse_color(s)) {
            Some(color) => Some(CommandView::SetAllKeys(color)),
            None => None,
        },
    ) + profile.groups@.filter_map(|entry: GroupEntry| spec_group_entry(entry)) + spec_key_entries(
        profile.key@,
    ) + profile.regions@.filter_map(|entry: RegionEntry| spec_region_entry(entry))
        + profile.effects@.filter_map(|entry: EffectEntry| spec_effect_entry(entry))
        + spec_setting_commands(profile) + seq![CommandView::Commit]
}

fn optional_color(text: &Option<String>) -> (color: Option<Color>)
    ensures
        color == spec_optional_text(*text, |s: Seq<char>| spec_parse_color(s)),
{
    match text {
        Some(text) => parse_color(text.as_str()),
        None => None,
    }
}

fn group_entry(entry: &GroupEntry) -> (command: Option<Command>)
    ensures
        option_command_view(command) == spec_group_entry(*entry),
{
    match (
        parse_key_group(entry.group.as_str()),
        parse_color(entry.color.as_str()),
    ) {
        (Some(group), Some(color)) => Some(Command::SetGroupKeys(group, color)),
        _ => None,
    }
}

fn key_entry(entry: &KeyEntry) -> (request: Option<KeyValue>)
    ensures
        request == spec_key_entry(*entry),
{
    match (
        parse_key(entry.key.as_str()),
        parse_color(entry.color.as_str()),
    ) {
        (Some(key), Some(color)) => Some(KeyValue { key, color }),
        _ => None,
    }
}

fn region_entry(entry: &RegionEntry) -> (command: Option<Command>)
    ensures
        option_command_view(command) == spec_region_entry(*entry),
{
    match (
        parse_u8(entry.region.as_str()),
        parse_color(entry.color.as_str()),
    ) {
        (Some(region), Some(color)) => Some(Command::SetRegion(region, color)),
        _ => None,
    }
}

fn effect_entry(entry: &EffectEntry) -> (command: Option<Command>)
    ensures
        option_command_view(command) == spec_effect_entry(*entry),
{
    let effect = match parse_native_effect(entry.effect.as_str()) {
        Some(effect) => effect,
        None => {
            return None;
        },
    };
    let part = match parse_native_effect_part(entry.part.as_str()) {
        Some(part) => part,
        None => {
            return None;
        },
    };
    let period = match &entry.period {
        Some(text) => parse_period(text.as_str()),
        None => None,
    };
    let color = optional_color(&entry.color);
    let storage = match &entry.storage {
        Some(text) => parse_native_effect_storage(text.as_str()),
        None => None,
    };
    Some(
        Command::SetFx(
            effect,
            part,
            match period {
                Some(period) => period,
                None => Period { millis: 0 },
            },
            match color {
                Some(color) => color,
                None => Color { red: 255, green: 255, blue: 255 },
            },
            match storage {
                Some(storage) => storage,
                None => NativeEffectStorage::Volatile,
            },
        ),
    )
}

/// The contents of a command that may be missing.
pub open spec fn option_command_view(command: Option<Command>) -> Option<CommandView> {
    match command {
        Some(command) => Some(command@),
        None => None,
    }
}

/// Appends a command, if there is one.
fn push_maybe(commands: &mut Vec<Command>, command: Option<Command>)
    ensures
        commands_view(final(commands)@) == commands_view(old(commands)@) + spec_maybe(
            option_command_view(command),
        ),
{
    let ghost before = commands@;
    match command {
        Some(command) => {
            commands.push(command);
            assert(commands_view(commands@) =~= commands_view(before) + seq![command@]);
        },
        None => {
            assert(commands_view(commands@) =~= commands_view(before) + Seq::empty());
        },
    }
}

fn group_commands(entries: &Vec<GroupEntry>, commands: &mut Vec<Command>)
    ensures
        commands_view(final(commands)@) == commands_view(old(commands)@) + entries@.filter_map(
            |entry: GroupEntry| spec_group_entry(entry),
        ),
{
    let ghost before = commands_view(commands@);
    let ghost of = |entry: GroupEntry| spec_group_entry(entry);
    let mut i: usize = 0;
    proof {
        assert(entries@.take(0).filter_map(of) =~= Seq::empty());
        assert(commands_view(commands@) =~= before + entries@.take(0).filter_map(of));
    }
    while i < entries.len()
        invariant
            i <= entries.len(),
            of == (|entry: GroupEntry| spec_group_entry(entry)),
            commands_view(commands@) == before + entries@.take(i as int).filter_map(of),
        decreases entries.len() - i,
    {
        proof {
            entries@.lemma_filter_map_take_succ(of, i as int);
        }
        push_maybe(commands, group_entry(&entries[i]));
        assert(commands_view(commands@) =~= before + entries@.take(i + 1).filter_map(of));
        i += 1;
    }
    proof {
        assert(entries@.take(entries.len() as int) == entries@);
    }
}

fn region_commands(entries: &Vec<RegionEntry>, commands: &mut Vec<Command>)
    ensures
        commands_view(final(commands)@) == commands_view(old(commands)@) + entries@.filter_map(
            |entry: RegionEntry| spec_region_entry(entry),
        ),
{
    let ghost before = commands_view(commands@);
    let ghost of = |entry: RegionEntry| spec_region_entry(entry);
    let mut i: usize = 0;
    proof {
        assert(entries@.take(0).filter_map(of) =~= Seq::empty());
        assert(commands_view(commands@) =~= before + entries@.take(0).filter_map(of));
    }
    while i < entries.len()
        invariant
            i <= entries.len(),
            of == (|entry: RegionEntry| spec_region_entry(entry)),
            commands_view(commands@) == before + entries@.take(i as int).filter_map(of),
        decreases entries.len() - i,
    {
        proof {
            entries@.lemma_filter_map_take_succ(of, i as int);
        }
        push_maybe(commands, region_entry(&entries[i]));
        assert(commands_view(commands@) =~= before + entries@.take(i + 1).filter_map(of));
        i += 1;
    }
    proof {
        assert(entries@.take(entries.len() as int) == entries@);
    }
}

fn effect_commands(entries: &Vec<EffectEntry>, commands: &mut Vec<Command>)
    ensures
        commands_view(final(commands)@) == commands_view(old(commands)@) + entries@.filter_map(
            |entry: EffectEntry| spec_effect_entry(entry),
        ),
{
    let ghost before = commands_view(commands@);
    let ghost of = |entry: EffectEntry| spec_effect_entry(entry);
    let mut i: usize = 0;
    proof {
        assert(entries@.take(0).filter_map(of) =~= Seq::empty());
        assert(commands_view(commands@) =~= before + entries@.take(0).filter_map(of));
    }
    while i < entries.len()
        invariant
            i <= entries.len(),
            of == (|entry: EffectEntry| spec_effect_entry(entry)),
            commands_view(commands@) == before + entries@.take(i as int).filter_map(of),
        decreases entries.len() - i,
    {
        proof {
            entries@.lemma_filter_map_take_succ(of, i as int);
        }
        push_maybe(commands, effect_entry(&entries[i]));
        assert(commands_view(commands@) =~= before + entries@.take(i + 1).filter_map(of));
        i += 1;
    }
    proof {
        assert(entries@.take(entries.len() as int) == entries@);
    }
}

fn key_commands(entries: &Vec<KeyEntry>, commands: &mut Vec<Command>)
    ensures
        commands_view(final(commands)@) == commands_view(old(commands)@) + spec_key_entries(
            entries@,
        ),
{
    let ghost of = |entry: KeyEntry| spec_key_entry(entry);
    let mut requests: Vec<KeyValue> = Vec::new();
    let mut i: usize = 0;
    proof {
        assert(entries@.take(0).filter_map(of) =~= Seq::empty());
    }
    while i < entries.len()
        invariant
            i <= entries.len(),
            of == (|entry: KeyEntry| spec_key_entry(entry)),
            requests@ == entries@.take(i as int).filter_map(of),
        decreases entries.len() - i,
    {
        proof {
            entries@.lemma_filter_map_take_succ(of, i as int);
        }
        match key_entry(&entries[i]) {
            Some(request) => {
                requests.push(request);
            },
            None => {},
        }
        assert(requests@ =~= entries@.take(i + 1).filter_map(of));
        i += 1;
    }
    proof {
        assert(entries@.take(entries.len() as int) == entries@);
    }
    let command = if requests.len() > 0 {
        Some(Command::SetKeys(requests))
    } else {
        None
    };
    push_maybe(commands, command);
}

proof fn lemma_add_assoc(x: Seq<CommandView>, y: Seq<CommandView>, z: Seq<CommandView>)
    ensures
        (x + y) + z == x + (y + z),
{
    assert((x + y) + z =~= x + (y + z));
}

fn setting_commands(profile: &Profile, commands: &mut Vec<Command>)
    ensures
        commands_view(final(commands)@) == commands_view(old(commands)@) + spec_setting_commands(
            *profile,
        ),
{
    let ghost before = commands_view(commands@);
    let mr = match profile.mr {
        Some(value) => Some(Command::SetMrKey(value)),
        None => None,
    };
    let mn = match profile.mn {
        Some(value) => Some(Command::SetMnKey(value)),
        None => None,
    };
    let gkeys = match profile.gkeys_mode {
        Some(value) => Some(Command::SetGKeysMode(value)),
        None => None,
    };
    let startup = match &profile.startup_mode {
        Some(text) => match parse_startup_mode(text.as_str()) {
            Some(mode) => Some(Command::SetStartupMode(mode)),
            None => None,
        },
        None => None,
    };
    let board = match &profile.on_board_mode {
        Some(text) => match parse_board_mode(text.as_str()) {
            Some(mode) => Some(Command::SetOnBoardMode(mode)),
            None => None,
        },
        None => None,
    };
    let ghost a = spec_maybe(option_command_view(mr));
    let ghost b = spec_maybe(option_command_view(mn));
    let ghost c = spec_maybe(option_command_view(gkeys));
    let ghost d = spec_maybe(option_command_view(startup));
    let ghost e = spec_maybe(option_command_view(board));
    assert(spec_setting_commands(*profile) == a + b + c + d + e);
    push_maybe(commands, mr);
    push_maybe(commands, mn);
    proof {
        lemma_add_assoc(before, a, b);
    }
    push_maybe(commands, gkeys);
    proof {
        lemma_add_assoc(before, a + b, c);
    }
    push_maybe(commands, startup);
    proof {
        lemma_add_assoc(before, a + b + c, d);
    }
    push_maybe(commands, board);
    proof {
        lemma_add_assoc(before, a + b + c + d, e);
    }
}

proof fn lemma_profile_commands_sum(
    all: Seq<CommandView>,
    groups: Seq<CommandView>,
    keys: Seq<CommandView>,
    regions: Seq<CommandView>,
    effects: Seq<CommandView>,
    settings: Seq<CommandView>,
    commit: Seq<CommandView>,
)
    ensures
        ((((((Seq::<CommandView>::empty() + all) + groups) + keys) + regions) + effects) + settings)
            + commit == all + groups + keys + regions + effects + settings + commit,
{
    assert(Seq::<CommandView>::empty() + all =~= all);
}

/// The commands that a structured profile asks for, in order.
pub fn profile_commands(profile: &Profile) -> (commands: Vec<Command>)
    ensures
        commands_view(commands@) == spec_profile_commands(*profile),
{
    let mut commands = no_commands();
    push_maybe(
        &mut commands,
        match optional_color(&profile.all) {
            Some(color) => Some(Command::SetAllKeys(color)),
            None => None,
        },
    );
    group_commands(&profile.groups, &mut commands);
    key_commands(&profile.key, &mut commands);
    region_commands(&profile.regions, &mut commands);
    effect_commands(&profile.effects, &mut commands);
    setting_commands(profile, &mut commands);
    push_maybe(&mut commands, Some(Command::Commit));
    proof {
        lemma_profile_commands_sum(
            spec_maybe(
                match spec_optional_text(profile.all, |s: Seq<char>| spec_parse_color(s)) {
                    Some(color) => Some(CommandView::SetAllKeys(color)),
                    None => None,
                },
            ),
            profile.groups@.filter_map(|entry: GroupEntry| spec_group_entry(entry)),
            spec_key_entries(profile.key@),
            profile.regions@.filter_map(|entry: RegionEntry| spec_region_entry(entry)),
            profile.effects@.filter_map(|entry: EffectEntry| spec_effect_entry(entry)),
            spec_setting_commands(*profile),
            seq![CommandView::Commit],
        );
    }
    commands
}

/// Carries a structured profile out on a keyboard: asks it for the commands
/// of `spec_profile_commands`, in order, and stops at the first that fails.
pub fn apply_toml_profile<K: KeyboardApi>(kbd: &mut K, profile: Profile) -> (result: Result<
    (),
    K::Error,
>)
    ensures
        spec_asked_for(
            old(kbd).asked(),
            final(kbd).asked(),
            spec_profile_commands(profile),
            result,
        ),
{
    let commands = profile_commands(&profile);
    run_commands(kbd, &commands)
}

} // verus!
