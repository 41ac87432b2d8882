//! The operations of a keyboard: the reports that each one takes on a
//! model, the interface that a keyboard offers, and a keyboard that keeps its
//! reports for a transport to send.

use crate::effects::{
    native_effect_packets, NativeEffect, NativeEffectPart, NativeEffectStorage,
    spec_native_effect_packets, spec_packets_or_none,
};
use crate::keyset::{set_keys_packets, spec_no_key_reports, spec_set_keys_packets};
use crate::model::KeyboardModel;
use crate::model_spec::spec_model_spec;
use crate::packet::{
    append_reports, commit_packet, gkeys_mode_packet, lemma_reports_view_push, mn_packet, mr_packet,
    on_board_mode_packet, option_view, region_packet, reports_view, spec_commit_packet,
    spec_gkeys_mode_packet, spec_mn_packet, spec_mr_packet, spec_on_board_mode_packet,
    spec_region_packet, spec_report_len, spec_reports_sized, spec_startup_mode_packet,
    startup_mode_packet,
};
use crate::types::{Color, Key, KeyGroup, KeyValue, OnBoardMode, Period, StartupMode};
use vstd::prelude::*;
use vstd::slice::slice_to_vec;

verus! {

/// The reports of an operation that takes at most one.
pub open spec fn spec_single(packet: Option<Seq<u8>>) -> Seq<Seq<u8>> {
    match packet {
        Some(bytes) => seq![bytes],
        None => Seq::empty(),
    }
}

fn single(packet: Option<Vec<u8>>) -> (packets: Vec<Vec<u8>>)
    ensures
        reports_view(packets@) == spec_single(option_view(packet)),
        packets@.len() == (if packet is Some { 1nat } else { 0nat }),
        (packet matches Some(bytes) ==> spec_report_len(bytes@.len())) ==> spec_reports_sized(
            reports_view(packets@),
        ),
{
    let mut packets: Vec<Vec<u8>> = Vec::new();
    assert(reports_view(packets@) =~= Seq::empty());
    match packet {
        Some(bytes) => {
            proof {
                lemma_reports_view_push(packets@, bytes);
            }
            packets.push(bytes);
        },
        None => {},
    }
    packets
}

/// The reports that make the keyboard apply what was staged: the commit
/// report, or nothing for a model that needs no commit.
pub fn commit_packets(model: KeyboardModel) -> (packets: Vec<Vec<u8>>)
    ensures
        reports_view(packets@) == spec_single(spec_commit_packet(model)),
        spec_reports_sized(reports_view(packets@)),
        spec_model_spec(model).commit is None ==> packets@.len() == 0,
{
    single(commit_packet(model))
}

/// The requests that give one colour to each of `keys`.
pub open spec fn spec_uniform(keys: Seq<Key>, color: Color) -> Seq<KeyValue> {
    keys.map_values(|key: Key| KeyValue { key, color })
}

/// The reports that give one colour to every key of a group.
pub open spec fn spec_set_group_keys_packets(
    model: KeyboardModel,
    group: KeyGroup,
    color: Color,
) -> Seq<Seq<u8>> {
    spec_set_keys_packets(model, spec_uniform(group.spec_keys(), color))
}

/// The reports that give one colour to every key of a group.
pub fn set_group_keys_packets(model: KeyboardModel, group: KeyGroup, color: Color) -> (packets: Vec<
    Vec<u8>,
>)
    ensures
        reports_view(packets@) == spec_set_group_keys_packets(model, group, color),
        spec_reports_sized(reports_view(packets@)),
{
    let keys = group.keys();
    let mut batch: Vec<KeyValue> = Vec::new();
    let mut i: usize = 0;
    while i < keys.len()
        invariant
            i <= keys.len(),
            batch@ == spec_uniform(keys@.take(i as int), color),
        decreases keys.len() - i,
    {
        batch.push(KeyValue { key: keys[i], color });
        assert(batch@ =~= spec_uniform(keys@.take(i + 1), color));
        i += 1;
    }
    proof {
        assert(keys@.take(keys.len() as int) == keys@);
    }
    set_keys_packets(model, batch.as_slice())
}

/// The reports that give one colour to every key: those of each group, the
/// groups in the order of their declaration.
pub open spec fn spec_set_all_keys_packets(model: KeyboardModel, color: Color) -> Seq<Seq<u8>> {
    KeyGroup::spec_all().map_values(
        |group: KeyGroup| spec_set_group_keys_packets(model, group, color),
    ).flatten()
}

/// The reports that give one colour to every key: those of each group, the
/// groups in the order of their declaration.
pub fn set_all_keys_packets(model: KeyboardModel, color: Color) -> (packets: Vec<Vec<u8>>)
    ensures
        reports_view(packets@) == spec_set_all_keys_packets(model, color),
        spec_reports_sized(reports_view(packets@)),
{
    let groups = KeyGroup::all();
    let ghost of_group = |group: KeyGroup| spec_set_group_keys_packets(model, group, color);
    let mut packets: Vec<Vec<u8>> = Vec::new();
    let mut i: usize = 0;
    proof {
        assert(groups@.take(0).map_values(of_group) =~= Seq::empty());
        assert(reports_view(packets@) =~= Seq::empty());
    }
    while i < groups.len()
        invariant
            i <= groups.len(),
            of_group == (|group: KeyGroup| spec_set_group_keys_packets(model, group, color)),
            spec_reports_sized(reports_view(packets@)),
            reports_view(packets@) == groups@.take(i as int).map_values(of_group).flatten(),
        decreases groups.len() - i,
    {
        let more = set_group_keys_packets(model, groups[i], color);
        proof {
            let done = groups@.take(i as int).map_values(of_group);
            assert(groups@.take(i + 1).map_values(of_group) =~= done.push(
                of_group(groups@[i as int]),
            ));
            done.lemma_flatten_push(of_group(groups@[i as int]));
        }
        append_reports(&mut packets, more);
        i += 1;
    }
    proof {
        assert(groups@.take(groups.len() as int) == groups@);
    }
    packets
}

/// The reports that give one colour to a region of the keyboard.
pub fn set_region_packets(model: KeyboardModel, region: u8, color: Color) -> (packets: Vec<Vec<u8>>)
    ensures
        reports_view(packets@) == spec_single(spec_region_packet(model, region, color)),
        spec_reports_sized(reports_view(packets@)),
{
    single(region_packet(model, region, color))
}

/// The reports that switch the light of the MR key.
pub fn set_mr_key_packets(model: KeyboardModel, value: u8) -> (packets: Vec<Vec<u8>>)
    ensures
        reports_view(packets@) == spec_single(spec_mr_packet(model, value)),
        spec_reports_sized(reports_view(packets@)),
{
    single(mr_packet(model, value))
}

/// The reports that switch the lights of the M-keys.
pub fn set_mn_key_packets(model: KeyboardModel, value: u8) -> (packets: Vec<Vec<u8>>)
    ensures
        reports_view(packets@) == spec_single(spec_mn_packet(model, value)),
        spec_reports_sized(reports_view(packets@)),
{
    single(mn_packet(model, value))
}

/// The reports that set the mode of the G-keys.
pub fn set_gkeys_mode_packets(model: KeyboardModel, value: u8) -> (packets: Vec<Vec<u8>>)
    ensures
        reports_view(packets@) == spec_single(spec_gkeys_mode_packet(model, value)),
        spec_reports_sized(reports_view(packets@)),
{
    single(gkeys_mode_packet(model, value))
}

/// The reports that set what the keyboard shows at power-up.
pub fn set_startup_mode_packets(model: KeyboardModel, mode: StartupMode) -> (packets: Vec<Vec<u8>>)
    ensures
        reports_view(packets@) == spec_single(spec_startup_mode_packet(model, mode)),
        spec_reports_sized(reports_view(packets@)),
{
    single(startup_mode_packet(model, mode))
}

/// The reports that hand the lighting to the keyboard or to the host.
pub fn set_on_board_mode_packets(model: KeyboardModel, mode: OnBoardMode) -> (packets: Vec<Vec<u8>>)
    ensures
        reports_view(packets@) == spec_single(spec_on_board_mode_packet(model, mode)),
        spec_reports_sized(reports_view(packets@)),
{
    single(on_board_mode_packet(model, mode))
}

/// The reports that run a built-in effect; none where the model cannot run
/// it.
pub fn set_fx_packets(
    model: KeyboardModel,
    effect: NativeEffect,
    part: NativeEffectPart,
    period: Period,
    color: Color,
    storage: NativeEffectStorage,
) -> (packets: Vec<Vec<u8>>)
    ensures
        reports_view(packets@) == spec_packets_or_none(
            spec_native_effect_packets(model, effect, part, period, color, storage),
        ),
        spec_reports_sized(reports_view(packets@)),
{
    match native_effect_packets(model, effect, part, period, color, storage) {
        Some(packets) => packets,
        None => {
            let packets: Vec<Vec<u8>> = Vec::new();
            assert(reports_view(packets@) =~= Seq::empty());
            packets
        },
    }
}

/// One operation asked of a keyboard.
#[derive(Clone, Debug, PartialEq, Eq)]
pub enum Command {
    Commit,
    SetAllKeys(Color),
    SetGroupKeys(KeyGroup, Color),
    SetKeys(Vec<KeyValue>),
    SetRegion(u8, Color),
    SetMrKey(u8),
    SetMnKey(u8),
    SetGKeysMode(u8),
    SetStartupMode(StartupMode),
    SetOnBoardMode(OnBoardMode),
    SetFx(NativeEffect, NativeEffectPart, Period, Color, NativeEffectStorage),
}

/// A `Command` as a mathematical value.
pub enum CommandView {
    Commit,
    SetAllKeys(Color),
    SetGroupKeys(KeyGroup, Color),
    SetKeys(Seq<KeyValue>),
    SetRegion(u8, Color),
    SetMrKey(u8),
    SetMnKey(u8),
    SetGKeysMode(u8),
    SetStartupMode(StartupMode),
    SetOnBoardMode(OnBoardMode),
    SetFx(NativeEffect, NativeEffectPart, Period, Color, NativeEffectStorage),
}

impl View for Command {
    type V = CommandView;

    open spec fn view(&self) -> CommandView {
        match *self {
            Command::Commit => CommandView::Commit,
            Command::SetAllKeys(color) => CommandView::SetAllKeys(color),
            Command::SetGroupKeys(group, color) => CommandView::SetGroupKeys(group, color),
            Command::SetKeys(keys) => CommandView::SetKeys(keys@),
            Command::SetRegion(region, color) => CommandView::SetRegion(region, color),
            Command::SetMrKey(value) => CommandView::SetMrKey(value),
            Command::SetMnKey(value) => CommandView::SetMnKey(value),
            Command::SetGKeysMode(value) => CommandView::SetGKeysMode(value),
            Command::SetStartupMode(mode) => CommandView::SetStartupMode(mode),
            Command::SetOnBoardMode(mode) => CommandView::SetOnBoardMode(mode),
            Command::SetFx(effect, part, period, color, storage) => CommandView::SetFx(
                effect,
                part,
                period,
                color,
                storage,
            ),
        }
    }
}

/// The contents of a list of commands.
pub open spec fn commands_view(commands: Seq<Command>) -> Seq<CommandView> {
    commands.map_values(|command: Command| command@)
}

/// The reports that carry out one command on a model; none where the model
/// cannot do what the command asks.
pub open spec fn spec_command_packets(model: KeyboardModel, command: CommandView) -> Seq<Seq<u8>> {
    match command {
        CommandView::Commit => spec_single(spec_commit_packet(model)),
        CommandView::SetAllKeys(color) => spec_set_all_keys_packets(model, color),
        CommandView::SetGroupKeys(group, color) => spec_set_group_keys_packets(model, group, color),
        CommandView::SetKeys(keys) => spec_set_keys_packets(model, keys),
        CommandView::SetRegion(region, color) => spec_single(
            spec_region_packet(model, region, color),
        ),
        CommandView::SetMrKey(value) => spec_single(spec_mr_packet(model, value)),
        CommandView::SetMnKey(value) => spec_single(spec_mn_packet(model, value)),
        CommandView::SetGKeysMode(value) => spec_single(spec_gkeys_mode_packet(model, value)),
        CommandView::SetStartupMode(mode) => spec_single(spec_startup_mode_packet(model, mode)),
        CommandView::SetOnBoardMode(mode) => spec_single(spec_on_board_mode_packet(model, mode)),
        CommandView::SetFx(effect, part, period, color, storage) => spec_packets_or_none(
            spec_native_effect_packets(model, effect, part, period, color, storage),
        ),
    }
}

/// The reports that carry out a list of commands on a model, in order.
pub open spec fn spec_commands_packets(model: KeyboardModel, commands: Seq<CommandView>) -> Seq<
    Seq<u8>,
> {
    commands.map_values(|command: CommandView| spec_command_packets(model, command)).flatten()
}

/// The reports that carry out one command on a model.
pub fn command_packets(model: KeyboardModel, command: &Command) -> (packets: Vec<Vec<u8>>)
    ensures
        reports_view(packets@) == spec_command_packets(model, command@),
        spec_reports_sized(reports_view(packets@)),
{
    match command {
        Command::Commit => commit_packets(model),
        Command::SetAllKeys(color) => set_all_keys_packets(model, *color),
        Command::SetGroupKeys(group, color) => set_group_keys_packets(model, *group, *color),
        Command::SetKeys(keys) => set_keys_packets(model, keys.as_slice()),
        Command::SetRegion(region, color) => set_region_packets(model, *region, *color),
        Command::SetMrKey(value) => set_mr_key_packets(model, *value),
        Command::SetMnKey(value) => set_mn_key_packets(model, *value),
        Command::SetGKeysMode(value) => set_gkeys_mode_packets(model, *value),
        Command::SetStartupMode(mode) => set_startup_mode_packets(model, *mode),
        Command::SetOnBoardMode(mode) => set_on_board_mode_packets(model, *mode),
        Command::SetFx(effect, part, period, color, storage) => set_fx_packets(
            model,
            *effect,
            *part,
            *period,
            *color,
            *storage,
        ),
    }
}

/// The reports that carry out a list of commands on a model, in order.
pub fn commands_packets(model: KeyboardModel, commands: &Vec<Command>) -> (packets: Vec<Vec<u8>>)
    ensures
        reports_view(packets@) == spec_commands_packets(model, commands_view(commands@)),
        spec_reports_sized(reports_view(packets@)),
{
    let ghost list = commands_view(commands@);
    let ghost per = |command: CommandView| spec_command_packets(model, command);
    let mut packets: Vec<Vec<u8>> = Vec::new();
    let mut i: usize = 0;
    proof {
        assert(reports_view(packets@) =~= Seq::empty());
        assert(list.take(0).map_values(per) =~= Seq::empty());
    }
    while i < commands.len()
        invariant
            i <= commands.len(),
            list == commands_view(commands@),
            per == (|command: CommandView| spec_command_packets(model, command)),
            reports_view(packets@) == list.take(i as int).map_values(per).flatten(),
            spec_reports_sized(reports_view(packets@)),
        decreases commands.len() - i,
    {
        let more = command_packets(model, &commands[i]);
        proof {
            let done = list.take(i as int).map_values(per);
            assert(list[i as int] == commands@[i as int]@);
            assert(list.take(i + 1).map_values(per) =~= done.push(per(list[i as int])));
            done.lemma_flatten_push(per(list[i as int]));
        }
        append_reports(&mut packets, more);
        i += 1;
    }
    proof {
        assert(list.take(commands.len() as int) == list);
    }
    packets
}

/// The record of commands that all went well.
pub open spec fn spec_done(commands: Seq<CommandView>) -> Seq<(CommandView, bool)> {
    commands.map_values(|command: CommandView| (command, true))
}

/// The operations of a keyboard. An operation that the device does not
/// support succeeds without effect; only the transport makes one fail.
pub trait KeyboardApi {
    /// What the transport reports when it fails.
    type Error;

    /// The commands that the keyboard was asked for since it was made, in
    /// order, each with whether it went well. An implementation that is
    /// verified says here what its record is; the answer given here stands
    /// for the others, whose record no proof can see.
    open spec fn asked(&self) -> Seq<(CommandView, bool)> {
        Seq::empty()
    }

    fn commit(&mut self) -> (result: Result<(), Self::Error>)
        ensures
            final(self).asked() == old(self).asked().push((CommandView::Commit, result is Ok)),
    ;

    fn set_all_keys(&mut self, color: Color) -> (result: Result<(), Self::Error>)
        ensures
            final(self).asked() == old(self).asked().push(
                (CommandView::SetAllKeys(color), result is Ok),
            ),
    ;

    fn set_group_keys(&mut self, group: KeyGroup, color: Color) -> (result: Result<
        (),
        Self::Error,
    >)
        ensures
            final(self).asked() == old(self).asked().push(
                (CommandView::SetGroupKeys(group, color), result is Ok),
            ),
    ;

    fn set_keys(&mut self, keys: &[KeyValue]) -> (result: Result<(), Self::Error>)
        ensures
            final(self).asked() == old(self).asked().push(
                (CommandView::SetKeys(keys@), result is Ok),
            ),
    ;

    fn set_region(&mut self, region: u8, color: Color) -> (result: Result<(), Self::Error>)
        ensures
            final(self).asked() == old(self).asked().push(
                (CommandView::SetRegion(region, color), result is Ok),
            ),
    ;

    fn set_mr_key(&mut self, value: u8) -> (result: Result<(), Self::Error>)
        ensures
            final(self).asked() == old(self).asked().push(
                (CommandView::SetMrKey(value), result is Ok),
            ),
    ;

    fn set_mn_key(&mut self, value: u8) -> (result: Result<(), Self::Error>)
        ensures
            final(self).asked() == old(self).asked().push(
                (CommandView::SetMnKey(value), result is Ok),
            ),
    ;

    fn set_gkeys_mode(&mut self, value: u8) -> (result: Result<(), Self::Error>)
        ensures
            final(self).asked() == old(self).asked().push(
                (CommandView::SetGKeysMode(value), result is Ok),
            ),
    ;

    fn set_startup_mode(&mut self, mode: StartupMode) -> (result: Result<(), Self::Error>)
        ensures
            final(self).asked() == old(self).asked().push(
                (CommandView::SetStartupMode(mode), result is Ok),
            ),
    ;

    fn set_on_board_mode(&mut self, mode: OnBoardMode) -> (result: Result<(), Self::Error>)
        ensures
            final(self).asked() == old(self).asked().push(
                (CommandView::SetOnBoardMode(mode), result is Ok),
            ),
    ;

    fn set_fx(
        &mut self,
        effect: NativeEffect,
        part: NativeEffectPart,
        period: Period,
        color: Color,
        storage: NativeEffectStorage,
    ) -> (result: Result<(), Self::Error>)
        ensures
            final(self).asked() == old(self).asked().push(
                (CommandView::SetFx(effect, part, period, color, storage), result is Ok),
            ),
    ;
}

/// The failure of what cannot fail: no value of this type is ever made.
#[derive(Debug)]
pub struct NoFailure {
    never: (),
}

impl NoFailure {
    #[verifier::type_invariant]
    spec fn impossible(self) -> bool {
        false
    }
}

/// The reports kept by a queue, with the commands that they carry out.
struct Kept {
    reports: Vec<Vec<u8>>,
    commands: Ghost<Seq<CommandView>>,
}

/// A keyboard of a known model that sends nothing: it keeps the reports of
/// what it is asked for, in the order in which a transport is to have them.
pub struct ReportQueue {
    model: KeyboardModel,
    kept: Kept,
}

impl ReportQueue {
    #[verifier::type_invariant]
    spec fn well_formed(self) -> bool {
        &&& reports_view(self.kept.reports@) == spec_commands_packets(
            self.model,
            self.kept.commands@,
        )
        &&& spec_reports_sized(reports_view(self.kept.reports@))
    }

    /// The model that the reports are for.
    pub closed spec fn spec_model(&self) -> KeyboardModel {
        self.model
    }

    /// The reports kept so far.
    pub closed spec fn spec_reports(&self) -> Seq<Seq<u8>> {
        reports_view(self.kept.reports@)
    }

    /// The commands that the queue was asked for; none of them fails.
    pub closed spec fn spec_commands(&self) -> Seq<CommandView> {
        self.kept.commands@
    }

    /// A queue without reports for a keyboard of the given model.
    pub fn new(model: KeyboardModel) -> (queue: ReportQueue)
        ensures
            queue.spec_model() == model,
            queue.spec_commands() == Seq::<CommandView>::empty(),
            queue.asked() == spec_done(queue.spec_commands()),
            queue.spec_reports() == Seq::<Seq<u8>>::empty(),
    {
        let reports: Vec<Vec<u8>> = Vec::new();
        proof {
            assert(reports_view(reports@) =~= Seq::empty());
            assert(Seq::<CommandView>::empty().map_values(
                |command: CommandView| spec_command_packets(model, command),
            ) =~= Seq::empty());
        }
        ReportQueue { model, kept: Kept { reports, commands: Ghost(Seq::empty()) } }
    }

    /// The model that the reports are for.
    #[verifier::when_used_as_spec(spec_model)]
    pub fn model(&self) -> (model: KeyboardModel)
        ensures
            model == self.spec_model(),
    {
        self.model
    }

    /// The reports kept so far: those of the commands asked for, in order,
    /// each of 20 or 64 bytes.
    pub fn reports(&self) -> (reports: &Vec<Vec<u8>>)
        ensures
            reports_view(reports@) == self.spec_reports(),
            self.spec_reports() == spec_commands_packets(self.spec_model(), self.spec_commands()),
            self.asked() == spec_done(self.spec_commands()),
            spec_reports_sized(self.spec_reports()),
    {
        proof {
            use_type_invariant(self);
        }
        &self.kept.reports
    }

    /// Gives the reports up: those of the commands asked for, in order, each
    /// of 20 or 64 bytes.
    pub fn into_reports(self) -> (reports: Vec<Vec<u8>>)
        ensures
            reports_view(reports@) == self.spec_reports(),
            self.spec_reports() == spec_commands_packets(self.spec_model(), self.spec_commands()),
            self.asked() == spec_done(self.spec_commands()),
            spec_reports_sized(self.spec_reports()),
    {
        proof {
            use_type_invariant(&self);
        }
        self.kept.reports
    }

    /// Takes a command in: keeps its reports.
    fn take(&mut self, command: &Command)
        ensures
            final(self).spec_model() == old(self).spec_model(),
            final(self).spec_commands() == old(self).spec_commands().push(command@),
            final(self).asked() == old(self).asked().push((command@, true)),
            final(self).spec_reports() == old(self).spec_reports() + spec_command_packets(
                old(self).spec_model(),
                command@,
            ),
    {
        proof {
            use_type_invariant(&*self);
        }
        let model = self.model;
        let more = command_packets(model, command);
        let ghost per = |command: CommandView| spec_command_packets(model, command);
        let mut kept = Kept { reports: Vec::new(), commands: Ghost(Seq::empty()) };
        proof {
            assert(reports_view(kept.reports@) =~= Seq::empty());
            assert(Seq::<CommandView>::empty().map_values(per) =~= Seq::empty());
        }
        core::mem::swap(&mut kept, &mut self.kept);
        let Kept { reports, commands } = kept;
        let mut reports = reports;
        proof {
            let before = commands@;
            assert(before.push(command@).map_values(per) =~= before.map_values(per).push(
                per(command@),
            ));
            before.map_values(per).lemma_flatten_push(per(command@));
        }
        append_reports(&mut reports, more);
        proof {
            assert(spec_done(commands@.push(command@)) =~= spec_done(commands@).push(
                (command@, true),
            ));
        }
        self.kept = Kept { reports, commands: Ghost(commands@.push(command@)) };
    }
}

impl KeyboardApi for ReportQueue {
    type Error = NoFailure;

    closed spec fn asked(&self) -> Seq<(CommandView, bool)> {
        spec_done(self.kept.commands@)
    }

    fn commit(&mut self) -> (result: Result<(), NoFailure>)
        ensures
            result is Ok,
            final(self).spec_model() == old(self).spec_model(),
            final(self).spec_reports() == old(self).spec_reports() + spec_single(
                spec_commit_packet(old(self).spec_model()),
            ),
            spec_model_spec(old(self).spec_model()).commit is None ==> final(self).spec_reports()
                == old(self).spec_reports(),
    {
        self.take(&Command::Commit);
        assert(old(self).spec_reports() + Seq::<Seq<u8>>::empty() =~= old(self).spec_reports());
        Ok(())
    }

    fn set_all_keys(&mut self, color: Color) -> (result: Result<(), NoFailure>)
        ensures
            result is Ok,
            final(self).spec_model() == old(self).spec_model(),
            final(self).spec_reports() == old(self).spec_reports() + spec_set_all_keys_packets(
                old(self).spec_model(),
                color,
            ),
    {
        self.take(&Command::SetAllKeys(color));
        Ok(())
    }

    fn set_group_keys(&mut self, group: KeyGroup, color: Color) -> (result: Result<(), NoFailure>)
        ensures
            result is Ok,
            final(self).spec_model() == old(self).spec_model(),
            final(self).spec_reports() == old(self).spec_reports() + spec_set_group_keys_packets(
                old(self).spec_model(),
                group,
                color,
            ),
    {
        self.take(&Command::SetGroupKeys(group, color));
        Ok(())
    }

    fn set_keys(&mut self, keys: &[KeyValue]) -> (result: Result<(), NoFailure>)
        ensures
            result is Ok,
            final(self).spec_model() == old(self).spec_model(),
            final(self).spec_reports() == old(self).spec_reports() + spec_set_keys_packets(
                old(self).spec_model(),
                keys@,
            ),
            spec_no_key_reports(old(self).spec_model()) ==> final(self).spec_reports() == old(
                self,
            ).spec_reports(),
    {
        self.take(&Command::SetKeys(slice_to_vec(keys)));
        assert(old(self).spec_reports() + Seq::<Seq<u8>>::empty() =~= old(self).spec_reports());
        Ok(())
    }

    fn set_region(&mut self, region: u8, color: Color) -> (result: Result<(), NoFailure>)
        ensures
            result is Ok,
            final(self).spec_model() == old(self).spec_model(),
            final(self).spec_reports() == old(self).spec_reports() + spec_single(
                spec_region_packet(old(self).spec_model(), region, color),
            ),
    {
        self.take(&Command::SetRegion(region, color));
        Ok(())
    }

    fn set_mr_key(&mut self, value: u8) -> (result: Result<(), NoFailure>)
        ensures
            result is Ok,
            final(self).spec_model() == old(self).spec_model(),
            final(self).spec_reports() == old(self).spec_reports() + spec_single(
                spec_mr_packet(old(self).spec_model(), value),
            ),
    {
        self.take(&Command::SetMrKey(value));
        Ok(())
    }

    fn set_mn_key(&mut self, value: u8) -> (result: Result<(), NoFailure>)
        ensures
            result is Ok,
            final(self).spec_model() == old(self).spec_model(),
            final(self).spec_reports() == old(self).spec_reports() + spec_single(
                spec_mn_packet(old(self).spec_model(), value),
            ),
    {
        self.take(&Command::SetMnKey(value));
        Ok(())
    }

    fn set_gkeys_mode(&mut self, value: u8) -> (result: Result<(), NoFailure>)
        ensures
            result is Ok,
            final(self).spec_model() == old(self).spec_model(),
            final(self).spec_reports() == old(self).spec_reports() + spec_single(
                spec_gkeys_mode_packet(old(self).spec_model(), value),
            ),
    {
        self.take(&Command::SetGKeysMode(value));
        Ok(())
    }

    fn set_startup_mode(&mut self, mode: StartupMode) -> (result: Result<(), NoFailure>)
        ensures
            result is Ok,
            final(self).spec_model() == old(self).spec_model(),
            final(self).spec_reports() == old(self).spec_reports() + spec_single(
                spec_startup_mode_packet(old(self).spec_model(), mode),
            ),
    {
        self.take(&Command::SetStartupMode(mode));
        Ok(())
    }

    fn set_on_board_mode(&mut self, mode: OnBoardMode) -> (result: Result<(), NoFailure>)
        ensures
            result is Ok,
            final(self).spec_model() == old(self).spec_model(),
            final(self).spec_reports() == old(self).spec_reports() + spec_single(
                spec_on_board_mode_packet(old(self).spec_model(), mode),
            ),
    {
        self.take(&Command::SetOnBoardMode(mode));
        Ok(())
    }

    fn set_fx(
        &mut self,
        effect: NativeEffect,
        part: NativeEffectPart,
        period: Period,
        color: Color,
        storage: NativeEffectStorage,
    ) -> (result: Result<(), NoFailure>)
        ensures
            result is Ok,
            final(self).spec_model() == old(self).spec_model(),
            final(self).spec_reports() == old(self).spec_reports() + spec_packets_or_none(
                spec_native_effect_packets(
                    old(self).spec_model(),
                    effect,
                    part,
                    period,
                    color,
                    storage,
                ),
            ),
    {
        self.take(&Command::SetFx(effect, part, period, color, storage));
        Ok(())
    }
}

} // verus!
