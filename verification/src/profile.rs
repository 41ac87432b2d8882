//! Profiles written line by line: one command to a line, `#` for comments,
//! variables, and key colours that wait for the next commit.

use crate::api::{
    Command, commands_packets, commands_view, CommandView, KeyboardApi, spec_commands_packets,
    spec_done,
};
use crate::effects::{NativeEffect, NativeEffectStorage};
use crate::model::KeyboardModel;
use crate::packet::{reports_view, spec_reports_sized};
use crate::parser::{
    complaint, parse_board_mode_chars, parse_color_chars, parse_key_chars, parse_key_group_chars,
    parse_native_effect_chars, parse_native_effect_part_chars, parse_native_effect_storage_chars,
    parse_period_chars, parse_startup_mode_chars, parse_u8_chars, spec_parse_board_mode,
    spec_parse_color, spec_parse_key, spec_parse_key_group, spec_parse_native_effect,
    spec_parse_native_effect_part, spec_parse_native_effect_storage, spec_parse_period,
    spec_parse_startup_mode, spec_parse_u8,
};
use crate::text::{
    first_index, is_word, same_text, spec_first_index, spec_tokens, spec_trim, texts_view, to_chars,
    tokens, trim_bounds,
};
use crate::types::{Color, KeyValue, Period};
use vstd::prelude::*;
use vstd::slice::{slice_subrange, slice_to_vec};

verus! {

/// What a profile has said so far that bears on the lines to come: its
/// variables, and the key colours that wait for the next commit.
pub struct ProfileStateView {
    pub vars: Map<Seq<char>, Seq<char>>,
    pub keys: Seq<KeyValue>,
}

/// What a line of a profile comes to: commands for the keyboard, or a
/// command that the profile language does not have.
pub enum OutcomeView {
    Commands(Seq<CommandView>),
    Unknown(Seq<char>),
}

/// A word of a line as the commands see it: the value of the variable for
/// `$` and the name of a variable that is set, else the word itself.
pub open spec fn spec_substitute(vars: Map<Seq<char>, Seq<char>>, word: Seq<char>) -> Seq<char> {
    if word.len() > 0 && word[0] == '$' && vars.dom().contains(word.drop_first()) {
        vars[word.drop_first()]
    } else {
        word
    }
}

/// The words of a command line, from the command on.
pub open spec fn spec_args(vars: Map<Seq<char>, Seq<char>>, command: Seq<char>) -> Seq<Seq<char>> {
    spec_tokens(command).map_values(|word: Seq<char>| spec_substitute(vars, word))
}

/// What stands on a line for the interpreter: the text before the first `#`,
/// without the white space around it.
pub open spec fn spec_command_text(line: Seq<char>) -> Seq<char> {
    spec_trim(line.take(spec_first_index(line, '#') as int))
}

/// What an argument gives where it may be missing.
pub open spec fn spec_optional<V>(
    args: Seq<Seq<char>>,
    index: int,
    parse: spec_fn(Seq<char>) -> Option<V>,
) -> Option<V> {
    if index < args.len() {
        parse(args[index])
    } else {
        None
    }
}

/// The effect that an `fx` line asks for: effect and part, then colour for
/// `color`, colour and period for `breathing`, period and colour for the
/// others, and the storage in the sixth place. A period that is missing or
/// wrong is zero, a colour white, a storage none.
pub open spec fn spec_fx_command(args: Seq<Seq<char>>) -> Option<CommandView> {
    match (spec_parse_native_effect(args[1]), spec_parse_native_effect_part(args[2])) {
        (Some(effect), Some(part)) => {
            let color_at: int = if effect == NativeEffect::Color || effect
                == NativeEffect::Breathing {
                3
            } else {
                4
            };
            let period_at: int = if effect == NativeEffect::Color {
                args.len() as int
            } else if effect == NativeEffect::Breathing {
                4
            } else {
                3
            };
            let color = match spec_optional(args, color_at, |s: Seq<char>| spec_parse_color(s)) {
                Some(color) => color,
                None => Color::white(),
            };
            let period = match spec_optional(args, period_at, |s: Seq<char>| spec_parse_period(s)) {
                Some(period) => period,
                None => Period { millis: 0 },
            };
            let storage = match spec_optional(
                args,
                5,
                |s: Seq<char>| spec_parse_native_effect_storage(s),
            ) {
                Some(storage) => storage,
                None => NativeEffectStorage::Volatile,
            };
            Some(CommandView::SetFx(effect, part, period, color, storage))
        },
        _ => None,
    }
}

/// No command, or the one that was made out.
pub open spec fn spec_maybe(command: Option<CommandView>) -> Seq<CommandView> {
    match command {
        Some(command) => seq![command],
        None => Seq::empty(),
    }
}

/// The commands that a line other than `var`, `c` and `k` comes to; `None`
/// where the profile language has no such line. A line whose arguments make
/// no sense comes to no command.
pub open spec fn spec_plain_command(args: Seq<Seq<char>>) -> Option<Seq<CommandView>> {
    let name = args[0];
    let n = args.len();
    if name == "a"@ && n >= 2 {
        Some(
            spec_maybe(
                match spec_parse_color(args[1]) {
                    Some(color) => Some(CommandView::SetAllKeys(color)),
                    None => None,
                },
            ),
        )
    } else if name == "g"@ && n >= 3 {
        Some(
            spec_maybe(
                match (spec_parse_key_group(args[1]), spec_parse_color(args[2])) {
                    (Some(group), Some(color)) => Some(CommandView::SetGroupKeys(group, color)),
                    _ => None,
                },
            ),
        )
    } else if name == "r"@ && n >= 3 {
        Some(
            spec_maybe(
                match (spec_parse_u8(args[1]), spec_parse_color(args[2])) {
                    (Some(region), Some(color)) => Some(CommandView::SetRegion(region, color)),
                    _ => None,
                },
            ),
        )
    } else if name == "mr"@ && n >= 2 {
        Some(
            spec_maybe(
                match spec_parse_u8(args[1]) {
                    Some(value) => Some(CommandView::SetMrKey(value)),
                    None => None,
                },
            ),
        )
    } else if name == "mn"@ && n >= 2 {
        Some(
            spec_maybe(
                match spec_parse_u8(args[1]) {
                    Some(value) => Some(CommandView::SetMnKey(value)),
                    None => None,
                },
            ),
        )
    } else if name == "gkm"@ && n >= 2 {
        Some(
            spec_maybe(
                match spec_parse_u8(args[1]) {
                    Some(value) => Some(CommandView::SetGKeysMode(value)),
                    None => None,
                },
            ),
        )
    } else if name == "sm"@ && n >= 2 {
        Some(
            spec_maybe(
                match spec_parse_startup_mode(args[1]) {
                    Some(mode) => Some(CommandView::SetStartupMode(mode)),
                    None => None,
                },
            ),
        )
    } else if name == "obm"@ && n >= 2 {
        Some(
            spec_maybe(
                match spec_parse_board_mode(args[1]) {
                    Some(mode) => Some(CommandView::SetOnBoardMode(mode)),
                    None => None,
                },
            ),
        )
    } else if name == "fx"@ && n >= 3 {
        Some(spec_maybe(spec_fx_command(args)))
    } else {
        None
    }
}

/// What the words of a line do to the state of a profile, and the commands
/// they come to; `None` where the profile language has no such line, which
/// then changes nothing.
/// - `var name value` sets a variable.
/// - `k key color` puts a key colour in wait, where both make sense.
/// - `c` asks for the key colours in wait, if there are any, and then for a
///   commit; nothing is in wait after it.
/// - The other lines ask for what `spec_plain_command` says.
pub open spec fn spec_run(state: ProfileStateView, args: Seq<Seq<char>>) -> Option<
    (ProfileStateView, Seq<CommandView>),
> {
    if args.len() == 0 {
        Some((state, Seq::empty()))
    } else if args[0] == "var"@ && args.len() >= 3 {
        Some(
            (
                ProfileStateView { vars: state.vars.insert(args[1], args[2]), keys: state.keys },
                Seq::empty(),
            ),
        )
    } else if args[0] == "c"@ {
        Some(
            (
                ProfileStateView { vars: state.vars, keys: Seq::empty() },
                if state.keys.len() > 0 {
                    seq![CommandView::SetKeys(state.keys), CommandView::Commit]
                } else {
                    seq![CommandView::Commit]
                },
            ),
        )
    } else if args[0] == "k"@ && args.len() >= 3 {
        Some(
            (
                match (spec_parse_key(args[1]), spec_parse_color(args[2])) {
                    (Some(key), Some(color)) => ProfileStateView {
                        vars: state.vars,
                        keys: state.keys.push(KeyValue { key, color }),
                    },
                    _ => state,
                },
                Seq::empty(),
            ),
        )
    } else {
        match spec_plain_command(args) {
            Some(commands) => Some((state, commands)),
            None => None,
        }
    }
}

/// What a line does to the state of a profile, and what it comes to. An
/// empty line, and one that holds a comment only, does nothing; the words
/// of any other line, variables replaced by their values, decide.
pub open spec fn spec_interpret(state: ProfileStateView, line: Seq<char>) -> (
    ProfileStateView,
    OutcomeView,
) {
    let text = spec_command_text(line);
    if text.len() == 0 {
        (state, OutcomeView::Commands(Seq::empty()))
    } else {
        match spec_run(state, spec_args(state.vars, text)) {
            Some((next, commands)) => (next, OutcomeView::Commands(commands)),
            None => (state, OutcomeView::Unknown(text)),
        }
    }
}

/// The variables that a list of settings leaves: each setting overrides the
/// ones before it that have its name.
pub open spec fn spec_vars(settings: Seq<(Vec<char>, Vec<char>)>) -> Map<Seq<char>, Seq<char>>
    decreases settings.len(),
{
    if settings.len() == 0 {
        Map::empty()
    } else {
        spec_vars(settings.drop_last()).insert(settings.last().0@, settings.last().1@)
    }
}

/// The state of a profile between two lines.
pub struct ProfileState {
    settings: Vec<(Vec<char>, Vec<char>)>,
    keys: Vec<KeyValue>,
}

/// What a line of a profile comes to.
#[derive(Clone, Debug, PartialEq, Eq)]
pub enum LineOutcome {
    /// The commands that the line asks for, in order.
    Commands(Vec<Command>),
    /// The line, without comment and surrounding white space, where the
    /// profile language has no such command.
    Unknown(String),
}

impl View for LineOutcome {
    type V = OutcomeView;

    open spec fn view(&self) -> OutcomeView {
        match *self {
            LineOutcome::Commands(commands) => OutcomeView::Commands(commands_view(commands@)),
            LineOutcome::Unknown(text) => OutcomeView::Unknown(text@),
        }
    }
}

/// What a line comes to, an unknown command given by where it stands in the
/// line.
enum Reading {
    Commands(Vec<Command>),
    Unknown(usize, usize),
}

/// An empty list of commands.
pub(crate) fn no_commands() -> (commands: Vec<Command>)
    ensures
        commands_view(commands@) == Seq::<CommandView>::empty(),
{
    let commands: Vec<Command> = Vec::new();
    assert(commands_view(commands@) =~= Seq::empty());
    commands
}

fn one_command(command: Command) -> (commands: Vec<Command>)
    ensures
        commands_view(commands@) == seq![command@],
{
    let mut commands: Vec<Command> = Vec::new();
    commands.push(command);
    assert(commands_view(commands@) =~= seq![command@]);
    commands
}

fn maybe_command(command: Option<Command>) -> (commands: Vec<Command>)
    ensures
        commands_view(commands@) == spec_maybe(
            match command {
                Some(command) => Some(command@),
                None => None,
            },
        ),
{
    match command {
        Some(command) => one_command(command),
        None => no_commands(),
    }
}

fn fx_command(args: &Vec<Vec<char>>) -> (command: Option<Command>)
    requires
        args@.len() >= 3,
    ensures
        (match command {
            Some(command) => Some(command@),
            None => None,
        }) == spec_fx_command(texts_view(args@)),
{
    let ghost words = texts_view(args@);
    assert(forall|i: int| 0 <= i < args@.len() ==> #[trigger] words[i] == args@[i]@);
    let effect = match parse_native_effect_chars(args[1].as_slice()) {
        Some(effect) => effect,
        None => {
            return None;
        },
    };
    let part = match parse_native_effect_part_chars(args[2].as_slice()) {
        Some(part) => part,
        None => {
            return None;
        },
    };
    let n = args.len();
    let color_at: usize = match effect {
        NativeEffect::Color | NativeEffect::Breathing => 3,
        _ => 4,
    };
    let period_at: usize = match effect {
        NativeEffect::Color => n,
        NativeEffect::Breathing => 4,
        _ => 3,
    };
    let color = if color_at < n {
        parse_color_chars(args[color_at].as_slice())
    } else {
        None
    };
    let period = if period_at < n {
        parse_period_chars(args[period_at].as_slice())
    } else {
        None
    };
    let storage = if 5 < n {
        parse_native_effect_storage_chars(args[5].as_slice())
    } else {
        None
    };
    Some(
        Command::SetFx(
            effect,
            part,
            match period {
                Some(period) => period,
                None => Period { millis: 0 },
            },
            match color {
                Some(color) => color,
                None => Color { red: 255, green: 255, blue: 255 },
            },
            match storage {
                Some(storage) => storage,
                None => NativeEffectStorage::Volatile,
            },
        ),
    )
}

fn plain_command(args: &Vec<Vec<char>>) -> (commands: Option<Vec<Command>>)
    requires
        args@.len() >= 1,
    ensures
        (match commands {
            Some(commands) => Some(commands_view(commands@)),
            None => None,
        }) == spec_plain_command(texts_view(args@)),
{
    let ghost words = texts_view(args@);
    assert(forall|i: int| 0 <= i < args@.len() ==> #[trigger] words[i] == args@[i]@);
    let name = args[0].as_slice();
    let n = args.len();
    if is_word(name, "a") && n >= 2 {
        Some(
            maybe_command(
                match parse_color_chars(args[1].as_slice()) {
                    Some(color) => Some(Command::SetAllKeys(color)),
                    None => None,
                },
            ),
        )
    } else if is_word(name, "g") && n >= 3 {
        Some(
            maybe_command(
                match (
                    parse_key_group_chars(args[1].as_slice()),
                    parse_color_chars(args[2].as_slice()),
                ) {
                    (Some(group), Some(color)) => Some(Command::SetGroupKeys(group, color)),
                    _ => None,
                },
            ),
        )
    } else if is_word(name, "r") && n >= 3 {
        Some(
            maybe_command(
                match (parse_u8_chars(args[1].as_slice()), parse_color_chars(args[2].as_slice())) {
                    (Some(region), Some(color)) => Some(Command::SetRegion(region, color)),
                    _ => None,
                },
            ),
        )
    } else if is_word(name, "mr") && n >= 2 {
        Some(
            maybe_command(
                match parse_u8_chars(args[1].as_slice()) {
                    Some(value) => Some(Command::SetMrKey(value)),
                    None => None,
                },
            ),
        )
    } else if is_word(name, "mn") && n >= 2 {
        Some(
            maybe_command(
                match parse_u8_chars(args[1].as_slice()) {
                    Some(value) => Some(Command::SetMnKey(value)),
                    None => None,
                },
            ),
        )
    } else if is_word(name, "gkm") && n >= 2 {
        Some(
            maybe_command(
                match parse_u8_chars(args[1].as_slice()) {
                    Some(value) => Some(Command::SetGKeysMode(value)),
                    None => None,
                },
            ),
        )
    } else if is_word(name, "sm") && n >= 2 {
        Some(
            maybe_command(
                match parse_startup_mode_chars(args[1].as_slice()) {
                    Some(mode) => Some(Command::SetStartupMode(mode)),
                    None => None,
                },
            ),
        )
    } else if is_word(name, "obm") && n >= 2 {
        Some(
            maybe_command(
                match parse_board_mode_chars(args[1].as_slice()) {
                    Some(mode) => Some(Command::SetOnBoardMode(mode)),
                    None => None,
                },
            ),
        )
    } else if is_word(name, "fx") && n >= 3 {
        Some(maybe_command(fx_command(args)))
    } else {
        None
    }
}

impl View for ProfileState {
    type V = ProfileStateView;

    closed spec fn view(&self) -> ProfileStateView {
        ProfileStateView { vars: spec_vars(self.settings@), keys: self.keys@ }
    }
}

impl ProfileState {
    /// The state before the first line: no variable, no key colour in wait.
    pub fn new() -> (state: ProfileState)
        ensures
            state@ == (ProfileStateView { vars: Map::empty(), keys: Seq::empty() }),
    {
        ProfileState { settings: Vec::new(), keys: Vec::new() }
    }

    /// The value of a variable.
    fn var(&self, name: &[char]) -> (value: Option<&Vec<char>>)
        ensures
            match value {
                Some(value) => self@.vars.dom().contains(name@) && self@.vars[name@] == value@,
                None => !self@.vars.dom().contains(name@),
            },
    {
        let mut i: usize = self.settings.len();
        proof {
            assert(self.settings@.take(i as int) == self.settings@);
        }
        while i > 0
            invariant
                i <= self.settings.len(),
                spec_vars(self.settings@).dom().contains(name@) == spec_vars(
                    self.settings@.take(i as int),
                ).dom().contains(name@),
                spec_vars(self.settings@).dom().contains(name@) ==> spec_vars(self.settings@)[name@]
                    == spec_vars(self.settings@.take(i as int))[name@],
            decreases i,
        {
            let ghost upto = self.settings@.take(i as int);
            proof {
                assert(upto.last() == self.settings@[i - 1]);
                assert(upto.drop_last() == self.settings@.take(i - 1));
            }
            if same_text(self.settings[i - 1].0.as_slice(), name) {
                return Some(&self.settings[i - 1].1);
            }
            i -= 1;
        }
        None
    }

    /// The words of a command, variables replaced by their values.
    fn args(&self, command: &[char]) -> (args: Vec<Vec<char>>)
        ensures
            texts_view(args@) == spec_args(self@.vars, command@),
    {
        let words = tokens(command);
        let ghost plain = spec_tokens(command@);
        let ghost value = |word: Seq<char>| spec_substitute(self@.vars, word);
        let mut args: Vec<Vec<char>> = Vec::new();
        let mut i: usize = 0;
        proof {
            assert(texts_view(args@) =~= plain.take(0).map_values(value));
        }
        while i < words.len()
            invariant
                i <= words.len(),
                plain == texts_view(words@),
                value == (|word: Seq<char>| spec_substitute(self@.vars, word)),
                texts_view(args@) == plain.take(i as int).map_values(value),
            decreases words.len() - i,
        {
            let word = &words[i];
            assert(plain[i as int] == word@);
            let mut arg: Option<Vec<char>> = None;
            if word.len() > 0 && word[0] == '$' {
                let name = slice_subrange(word.as_slice(), 1, word.len());
                assert(name@ =~= word@.drop_first());
                match self.var(name) {
                    Some(found) => {
                        arg = Some(slice_to_vec(found.as_slice()));
                    },
                    None => {},
                }
            }
            let arg = match arg {
                Some(arg) => arg,
                None => slice_to_vec(word.as_slice()),
            };
            proof {
                assert(arg@ == value(word@));
                assert(texts_view(args@.push(arg)) =~= texts_view(args@).push(arg@));
                assert(plain.take(i + 1) =~= plain.take(i as int).push(word@));
                assert(plain.take(i + 1).map_values(value) =~= plain.take(i as int).map_values(
                    value,
                ).push(value(word@)));
            }
            args.push(arg);
            i += 1;
        }
        proof {
            assert(plain.take(words.len() as int) == plain);
        }
        args
    }

    fn set_var(&mut self, name: &[char], value: &[char])
        ensures
            final(self)@ == (ProfileStateView {
                vars: old(self)@.vars.insert(name@, value@),
                keys: old(self)@.keys,
            }),
    {
        let ghost before = self.settings@;
        let setting = (slice_to_vec(name), slice_to_vec(value));
        self.settings.push(setting);
        proof {
            assert(self.settings@.drop_last() == before);
        }
    }

    fn take_keys(&mut self) -> (keys: Vec<KeyValue>)
        ensures
            keys@ == old(self)@.keys,
            final(self)@ == (ProfileStateView { vars: old(self)@.vars, keys: Seq::empty() }),
    {
        let mut keys: Vec<KeyValue> = Vec::new();
        core::mem::swap(&mut keys, &mut self.keys);
        keys
    }

    fn push_key(&mut self, request: KeyValue)
        ensures
            final(self)@ == (ProfileStateView {
                vars: old(self)@.vars,
                keys: old(self)@.keys.push(request),
            }),
    {
        self.keys.push(request);
    }

    fn commit(&mut self) -> (commands: Vec<Command>)
        ensures
            final(self)@ == (ProfileStateView { vars: old(self)@.vars, keys: Seq::empty() }),
            commands_view(commands@) == (if old(self)@.keys.len() > 0 {
                seq![CommandView::SetKeys(old(self)@.keys), CommandView::Commit]
            } else {
                seq![CommandView::Commit]
            }),
    {
        let keys = self.take_keys();
        let mut commands: Vec<Command> = Vec::new();
        if keys.len() > 0 {
            let ghost waiting = keys@;
            commands.push(Command::SetKeys(keys));
            commands.push(Command::Commit);
            assert(commands_view(commands@) =~= seq![
                CommandView::SetKeys(waiting),
                CommandView::Commit,
            ]);
        } else {
            commands.push(Command::Commit);
            assert(commands_view(commands@) =~= seq![CommandView::Commit]);
        }
        commands
    }

    /// Does what the words of a line say.
    fn run(&mut self, args: &Vec<Vec<char>>) -> (commands: Option<Vec<Command>>)
        ensures
            match commands {
                Some(commands) => spec_run(old(self)@, texts_view(args@)) == Some(
                    (final(self)@, commands_view(commands@)),
                ),
                None => spec_run(old(self)@, texts_view(args@)) is None && final(self)@ == old(
                    self,
                )@,
            },
    {
        let ghost words = texts_view(args@);
        assert(forall|i: int| 0 <= i < args@.len() ==> #[trigger] words[i] == args@[i]@);
        if args.len() == 0 {
            return Some(no_commands());
        }
        let name = args[0].as_slice();
        if is_word(name, "var") && args.len() >= 3 {
            self.set_var(args[1].as_slice(), args[2].as_slice());
            Some(no_commands())
        } else if is_word(name, "c") {
            Some(self.commit())
        } else if is_word(name, "k") && args.len() >= 3 {
            match (parse_key_chars(args[1].as_slice()), parse_color_chars(args[2].as_slice())) {
                (Some(key), Some(color)) => {
                    self.push_key(KeyValue { key, color });
                },
                _ => {},
            }
            Some(no_commands())
        } else {
            plain_command(args)
        }
    }

    /// Takes a line in.
    fn read(&mut self, line: &[char]) -> (reading: Reading)
        ensures
            final(self)@ == spec_interpret(old(self)@, line@).0,
            match reading {
                Reading::Commands(commands) => spec_interpret(old(self)@, line@).1
                    == OutcomeView::Commands(commands_view(commands@)),
                Reading::Unknown(start, end) => start <= end <= line@.len() && spec_interpret(
                    old(self)@,
                    line@,
                ).1 == OutcomeView::Unknown(line@.subrange(start as int, end as int)),
            },
    {
        let cut = first_index(line, '#');
        let before = slice_subrange(line, 0, cut);
        assert(before@ =~= line@.take(cut as int));
        let (start, end) = trim_bounds(before);
        let text = slice_subrange(before, start, end);
        assert(text@ == spec_command_text(line@));
        assert(text@ =~= line@.subrange(start as int, end as int));
        if start == end {
            return Reading::Commands(no_commands());
        }
        let args = self.args(text);
        match self.run(&args) {
            Some(commands) => Reading::Commands(commands),
            None => Reading::Unknown(start, end),
        }
    }

    /// Takes the next line of a profile in and says what it comes to.
    pub fn feed_line(&mut self, line: &str) -> (outcome: LineOutcome)
        ensures
            final(self)@ == spec_interpret(old(self)@, line@).0,
            outcome@ == spec_interpret(old(self)@, line@).1,
    {
        let chars = to_chars(line);
        match self.read(chars.as_slice()) {
            Reading::Commands(commands) => LineOutcome::Commands(commands),
            Reading::Unknown(start, end) => LineOutcome::Unknown(
                line.substring_char(start, end).to_owned(),
            ),
        }
    }

    /// The commands that are due when the profile has ended: the key colours
    /// that still wait, if there are any.
    pub fn finish(self) -> (commands: Vec<Command>)
        ensures
            commands_view(commands@) == spec_finish(self@),
    {
        if self.keys.len() > 0 {
            one_command(Command::SetKeys(self.keys))
        } else {
            no_commands()
        }
    }
}

/// What is due at the end of a profile.
pub open spec fn spec_finish(state: ProfileStateView) -> Seq<CommandView> {
    if state.keys.len() > 0 {
        seq![CommandView::SetKeys(state.keys)]
    } else {
        Seq::empty()
    }
}

/// The lines of a text: what stands between its line feeds, before the first
/// and behind the last.
pub open spec fn spec_lines(text: Seq<char>) -> Seq<Seq<char>>
    decreases text.len(),
{
    if text.len() == 0 {
        seq![Seq::empty()]
    } else {
        let before = spec_lines(text.drop_last());
        if text.last() == '\n' {
            before.push(Seq::empty())
        } else {
            before.drop_last().push(before.last().push(text.last()))
        }
    }
}

/// How far the reading of a profile has come: the state, the commands so
/// far, the unknown commands that were passed over, and the unknown command
/// at which a strict reading stopped.
pub struct ProgressView {
    pub state: ProfileStateView,
    pub commands: Seq<CommandView>,
    pub skipped: Seq<Seq<char>>,
    pub error: Option<Seq<char>>,
}

/// The progress after one more line. Nothing moves once a strict reading has
/// stopped. An unknown command stops a strict reading and is passed over by
/// any other.
pub open spec fn spec_read_line(
    progress: ProgressView,
    line: Seq<char>,
    strict: bool,
) -> ProgressView {
    if progress.error is Some {
        progress
    } else {
        match spec_interpret(progress.state, line) {
            (state, OutcomeView::Commands(commands)) => ProgressView {
                state,
                commands: progress.commands + commands,
                ..progress
            },
            (_, OutcomeView::Unknown(text)) => if strict {
                ProgressView { error: Some(text), ..progress }
            } else {
                ProgressView { skipped: progress.skipped.push(text), ..progress }
            },
        }
    }
}

/// The progress after the given lines, read in order from a fresh state.
pub open spec fn spec_read_lines(lines: Seq<Seq<char>>, strict: bool) -> ProgressView
    decreases lines.len(),
{
    if lines.len() == 0 {
        ProgressView {
            state: ProfileStateView { vars: Map::empty(), keys: Seq::empty() },
            commands: Seq::empty(),
            skipped: Seq::empty(),
            error: None,
        }
    } else {
        spec_read_line(spec_read_lines(lines.drop_last(), strict), lines.last(), strict)
    }
}

/// What a profile asks for.
pub struct ScriptView {
    /// The commands for the keyboard, in order.
    pub commands: Seq<CommandView>,
    /// The unknown commands that were passed over.
    pub skipped: Seq<Seq<char>>,
    /// The unknown command that stopped a strict reading.
    pub error: Option<Seq<char>>,
}

/// What a profile asks for: the commands of its lines, and at the end, where
/// no unknown command stopped the reading, the key colours that still wait.
pub open spec fn spec_script(text: Seq<char>, strict: bool) -> ScriptView {
    let progress = spec_read_lines(spec_lines(text), strict);
    ScriptView {
        commands: if progress.error is None {
            progress.commands + spec_finish(progress.state)
        } else {
            progress.commands
        },
        skipped: progress.skipped,
        error: progress.error,
    }
}

/// The contents of a list of texts.
pub open spec fn strings_view(texts: Seq<String>) -> Seq<Seq<char>> {
    texts.map_values(|text: String| text@)
}

/// What a profile asks for.
#[derive(Clone, Debug, PartialEq, Eq)]
pub struct Script {
    /// The commands for the keyboard, in order.
    pub commands: Vec<Command>,
    /// The unknown commands that were passed over.
    pub skipped: Vec<String>,
    /// The unknown command that stopped a strict reading.
    pub error: Option<String>,
}

impl View for Script {
    type V = ScriptView;

    open spec fn view(&self) -> ScriptView {
        ScriptView {
            commands: commands_view(self.commands@),
            skipped: strings_view(self.skipped@),
            error: match self.error {
                Some(text) => Some(text@),
                None => None,
            },
        }
    }
}

/// Appends the commands of `more` to `commands`, in order.
fn append_commands(commands: &mut Vec<Command>, more: Vec<Command>)
    ensures
        commands_view(final(commands)@) == commands_view(old(commands)@) + commands_view(more@),
{
    let ghost before = commands@;
    let ghost added = more@;
    let mut more = more;
    commands.append(&mut more);
    assert(commands_view(commands@) =~= commands_view(before) + commands_view(added));
}

struct Progress {
    state: ProfileState,
    commands: Vec<Command>,
    skipped: Vec<String>,
    error: Option<String>,
}

impl View for Progress {
    type V = ProgressView;

    closed spec fn view(&self) -> ProgressView {
        ProgressView {
            state: self.state@,
            commands: commands_view(self.commands@),
            skipped: strings_view(self.skipped@),
            error: match self.error {
                Some(text) => Some(text@),
                None => None,
            },
        }
    }
}

impl Progress {
    fn new() -> (progress: Progress)
        ensures
            progress@ == spec_read_lines(Seq::empty(), false),
            progress@ == spec_read_lines(Seq::empty(), true),
    {
        let progress = Progress {
            state: ProfileState::new(),
            commands: Vec::new(),
            skipped: Vec::new(),
            error: None,
        };
        assert(commands_view(progress.commands@) =~= Seq::empty());
        assert(strings_view(progress.skipped@) =~= Seq::empty());
        progress
    }

    /// Reads the line of `text` that runs from `from` to `to`.
    fn read_line(&mut self, text: &str, chars: &[char], from: usize, to: usize, strict: bool)
        requires
            chars@ == text@,
            from <= to <= chars@.len(),
        ensures
            final(self)@ == spec_read_line(
                old(self)@,
                text@.subrange(from as int, to as int),
                strict,
            ),
    {
        if self.error.is_some() {
            return ;
        }
        let line = slice_subrange(chars, from, to);
        match self.state.read(line) {
            Reading::Commands(commands) => {
                append_commands(&mut self.commands, commands);
            },
            Reading::Unknown(start, end) => {
                let unknown = text.substring_char(from + start, from + end).to_owned();
                assert(unknown@ =~= line@.subrange(start as int, end as int));
                if strict {
                    self.error = Some(unknown);
                } else {
                    let ghost before = self.skipped@;
                    self.skipped.push(unknown);
                    assert(strings_view(self.skipped@) =~= strings_view(before).push(unknown@));
                }
            },
        }
    }
}

/// What one more character does to the lines of a text: a line feed begins
/// a line, any other character goes to the end of the last line.
proof fn lemma_lines_push(text: Seq<char>, c: char)
    requires
        spec_lines(text).len() > 0,
    ensures
        spec_lines(text.push(c)).len() > 0,
        c == '\n' ==> spec_lines(text.push(c)).drop_last() == spec_lines(text) && spec_lines(
            text.push(c),
        ).last() == Seq::<char>::empty(),
        c != '\n' ==> spec_lines(text.push(c)).drop_last() == spec_lines(text).drop_last()
            && spec_lines(text.push(c)).last() == spec_lines(text).last().push(c),
{
    let before = spec_lines(text);
    assert(text.push(c).drop_last() == text);
    assert(text.push(c).last() == c);
    if c == '\n' {
        assert(before.push(Seq::empty()).drop_last() == before);
    } else {
        assert(before.drop_last().push(before.last().push(c)).drop_last() == before.drop_last());
    }
}

/// Reads the lines of a profile in.
fn read_lines(text: &str, strict: bool) -> (progress: Progress)
    ensures
        progress@ == spec_read_lines(spec_lines(text@), strict),
{
    let chars = to_chars(text);
    let mut progress = Progress::new();
    let mut from: usize = 0;
    let mut i: usize = 0;
    proof {
        assert(text@.take(0) =~= Seq::empty());
        assert(spec_lines(text@.take(0)).drop_last() =~= Seq::empty());
        assert(spec_lines(text@.take(0)).last() =~= text@.subrange(0, 0));
    }
    while i < chars.len()
        invariant
            chars@ == text@,
            from <= i <= chars.len(),
            spec_lines(text@.take(i as int)).len() > 0,
            spec_lines(text@.take(i as int)).last() == text@.subrange(from as int, i as int),
            progress@ == spec_read_lines(spec_lines(text@.take(i as int)).drop_last(), strict),
        decreases chars.len() - i,
    {
        let ghost before = spec_lines(text@.take(i as int));
        proof {
            assert(text@.take(i + 1) == text@.take(i as int).push(text@[i as int]));
            lemma_lines_push(text@.take(i as int), text@[i as int]);
        }
        if chars[i] == '\n' {
            progress.read_line(text, chars.as_slice(), from, i, strict);
            proof {
                assert(before.drop_last().push(before.last()) == before);
                assert(text@.subrange(i + 1, i + 1) =~= Seq::empty());
            }
            from = i + 1;
        } else {
            proof {
                assert(text@.subrange(from as int, i + 1) =~= before.last().push(text@[i as int]));
            }
        }
        i += 1;
    }
    proof {
        assert(text@.take(chars.len() as int) == text@);
        let lines = spec_lines(text@);
        assert(lines.drop_last().push(lines.last()) == lines);
    }
    progress.read_line(text, chars.as_slice(), from, chars.len(), strict);
    progress
}

/// Reads a profile through and says what it asks for. A strict reading
/// stops at the first unknown command; any other passes unknown commands
/// over.
pub fn profile_script(text: &str, strict: bool) -> (script: Script)
    ensures
        script@ == spec_script(text@, strict),
{
    let Progress { state, commands, skipped, error } = read_lines(text, strict);
    let mut commands = commands;
    if error.is_none() {
        append_commands(&mut commands, state.finish());
    }
    Script { commands, skipped, error }
}

/// Asks the keyboard for one command.
pub fn run_command<K: KeyboardApi>(kbd: &mut K, command: &Command) -> (result: Result<
    (),
    K::Error,
>)
    ensures
        final(kbd).asked() == old(kbd).asked().push((command@, result is Ok)),
{
    match command {
        Command::Commit => kbd.commit(),
        Command::SetAllKeys(color) => kbd.set_all_keys(*color),
        Command::SetGroupKeys(group, color) => kbd.set_group_keys(*group, *color),
        Command::SetKeys(keys) => kbd.set_keys(keys.as_slice()),
        Command::SetRegion(region, color) => kbd.set_region(*region, *color),
        Command::SetMrKey(value) => kbd.set_mr_key(*value),
        Command::SetMnKey(value) => kbd.set_mn_key(*value),
        Command::SetGKeysMode(value) => kbd.set_gkeys_mode(*value),
        Command::SetStartupMode(mode) => kbd.set_startup_mode(*mode),
        Command::SetOnBoardMode(mode) => kbd.set_on_board_mode(*mode),
        Command::SetFx(effect, part, period, color, storage) => kbd.set_fx(
            *effect,
            *part,
            *period,
            *color,
            *storage,
        ),
    }
}

/// The keyboard was asked for commands of a list, in order and from the
/// first on: for all of them where that went well, and where it failed for
/// those up to the first that failed, which is the last one asked for.
pub open spec fn spec_asked_for<E>(
    before: Seq<(CommandView, bool)>,
    after: Seq<(CommandView, bool)>,
    commands: Seq<CommandView>,
    result: Result<(), E>,
) -> bool {
    match result {
        Ok(_) => after == before + spec_done(commands),
        Err(_) => exists|n: int|
            0 <= n < commands.len() && after == before + spec_done(
                #[trigger] commands.take(n),
            ).push((commands[n], false)),
    }
}

/// Asks the keyboard for the commands one after the other, and stops at the
/// first that fails: what the keyboard said of it is the result. A list
/// without commands asks nothing and succeeds.
pub fn run_commands<K: KeyboardApi>(kbd: &mut K, commands: &Vec<Command>) -> (result: Result<
    (),
    K::Error,
>)
    ensures
        spec_asked_for(old(kbd).asked(), final(kbd).asked(), commands_view(commands@), result),
        commands@.len() == 0 ==> result is Ok,
{
    let ghost list = commands_view(commands@);
    let mut i: usize = 0;
    proof {
        assert(kbd.asked() =~= old(kbd).asked() + spec_done(list.take(0)));
    }
    while i < commands.len()
        invariant
            i <= commands.len(),
            list == commands_view(commands@),
            kbd.asked() == old(kbd).asked() + spec_done(list.take(i as int)),
        decreases commands.len() - i,
    {
        let result = run_command(kbd, &commands[i]);
        proof {
            assert(list[i as int] == commands@[i as int]@);
            assert(list.take(i + 1) =~= list.take(i as int).push(list[i as int]));
            assert(spec_done(list.take(i + 1)) =~= spec_done(list.take(i as int)).push(
                (list[i as int], true),
            ));
        }
        match result {
            Ok(()) => {
                assert(kbd.asked() =~= old(kbd).asked() + spec_done(list.take(i + 1)));
            },
            Err(error) => {
                assert(kbd.asked() =~= old(kbd).asked() + spec_done(list.take(i as int)).push(
                    (list[i as int], false),
                ));
                return Err(error);
            },
        }
        i += 1;
    }
    proof {
        assert(list.take(commands.len() as int) == list);
    }
    Ok(())
}

/// Why a profile was not carried out to its end.
#[derive(Debug)]
pub enum ProfileError<E> {
    /// A strict reading met this command, which the profile language does
    /// not have.
    UnknownCommand(String),
    /// The keyboard failed at a command.
    Keyboard(E),
}

/// The message for a command that the profile language does not have.
pub fn unknown_command_message(command: &str) -> (message: String)
    ensures
        message@ == "unknown command: "@ + command@,
{
    complaint("unknown command: ", command)
}

/// Settles the outcome of a profile from its script and from what the
/// keyboard answered to its commands: the keyboard's failure; else the
/// unknown command that stopped a strict reading; else the unknown commands
/// that were passed over.
pub fn profile_result<E>(script: Script, answer: Result<(), E>) -> (result: Result<
    Vec<String>,
    ProfileError<E>,
>)
    ensures
        match result {
            Ok(skipped) => answer is Ok && script@.error is None && strings_view(skipped@)
                == script@.skipped,
            Err(ProfileError::UnknownCommand(text)) => answer is Ok && script@.error == Some(text@),
            Err(ProfileError::Keyboard(error)) => answer == Err::<(), E>(error),
        },
{
    match answer {
        Err(error) => Err(ProfileError::Keyboard(error)),
        Ok(()) => match script.error {
            Some(text) => Err(ProfileError::UnknownCommand(text)),
            None => Ok(script.skipped),
        },
    }
}

/// What the keyboard's answer to a list of commands was, as far as the
/// outcome of a profile tells.
pub open spec fn spec_answer<V, E>(result: Result<V, ProfileError<E>>) -> Result<(), E> {
    match result {
        Err(ProfileError::Keyboard(error)) => Err(error),
        _ => Ok(()),
    }
}

/// Carries a profile out on a keyboard: asks it for the commands of
/// `spec_script`, in order, up to the first that fails.
/// - `Ok` holds the unknown commands that were passed over.
/// - `UnknownCommand` holds the command that stopped a strict reading; the
///   commands before it were carried out.
/// - `Keyboard` holds what the keyboard said of the command that failed.
pub fn parse_profile<K: KeyboardApi>(kbd: &mut K, text: &str, strict: bool) -> (result: Result<
    Vec<String>,
    ProfileError<K::Error>,
>)
    ensures
        spec_asked_for(
            old(kbd).asked(),
            final(kbd).asked(),
            spec_script(text@, strict).commands,
            spec_answer(result),
        ),
        match result {
            Ok(skipped) => spec_script(text@, strict).error is None && strings_view(skipped@)
                == spec_script(text@, strict).skipped,
            Err(ProfileError::UnknownCommand(command)) => spec_script(text@, strict).error == Some(
                command@,
            ),
            Err(ProfileError::Keyboard(_)) => true,
        },
{
    let script = profile_script(text, strict);
    let answer = run_commands(kbd, &script.commands);
    profile_result(script, answer)
}

/// What a profile sends to a keyboard.
#[derive(Clone, Debug, PartialEq, Eq)]
pub struct ProfileReports {
    /// The reports, in the order in which a transport is to have them.
    pub reports: Vec<Vec<u8>>,
    /// The unknown commands that were passed over.
    pub skipped: Vec<String>,
    /// The unknown command that stopped a strict reading.
    pub error: Option<String>,
}

/// Works out what a profile sends to a keyboard of a model, without a
/// keyboard: the reports of the commands of `spec_script`, in order, each of
/// 20 or 64 bytes.
pub fn profile_reports(model: KeyboardModel, text: &str, strict: bool) -> (outcome: ProfileReports)
    ensures
        reports_view(outcome.reports@) == spec_commands_packets(
            model,
            spec_script(text@, strict).commands,
        ),
        spec_reports_sized(reports_view(outcome.reports@)),
        strings_view(outcome.skipped@) == spec_script(text@, strict).skipped,
        (match outcome.error {
            Some(command) => Some(command@),
            None => None,
        }) == spec_script(text@, strict).error,
{
    let script = profile_script(text, strict);
    let reports = commands_packets(model, &script.commands);
    ProfileReports { reports, skipped: script.skipped, error: script.error }
}

/// The commands that a line comes to; none for an unknown command.
pub open spec fn spec_outcome_commands(outcome: OutcomeView) -> Seq<CommandView> {
    match outcome {
        OutcomeView::Commands(commands) => commands,
        OutcomeView::Unknown(_) => Seq::empty(),
    }
}

/// Carries one line of a profile out on a keyboard, for a profile that
/// comes in line by line: takes the line in, asks the keyboard for its
/// commands, in order, up to the first that fails, and settles what an
/// unknown command means.
/// - `Ok(None)`: the line was carried out.
/// - `Ok(Some(command))`: the line is this unknown command; it was passed
///   over, the reading not being strict.
/// - `UnknownCommand`: the line is this unknown command, and the reading is
///   strict.
/// - `Keyboard`: what the keyboard said of the command that failed.
pub fn read_profile_line<K: KeyboardApi>(
    state: &mut ProfileState,
    kbd: &mut K,
    line: &str,
    strict: bool,
) -> (result: Result<Option<String>, ProfileError<K::Error>>)
    ensures
        final(state)@ == spec_interpret(old(state)@, line@).0,
        spec_asked_for(
            old(kbd).asked(),
            final(kbd).asked(),
            spec_outcome_commands(spec_interpret(old(state)@, line@).1),
            spec_answer(result),
        ),
        match result {
            Ok(None) => spec_interpret(old(state)@, line@).1 is Commands,
            Ok(Some(command)) => !strict && spec_interpret(old(state)@, line@).1
                == OutcomeView::Unknown(command@),
            Err(ProfileError::UnknownCommand(command)) => strict && spec_interpret(
                old(state)@,
                line@,
            ).1 == OutcomeView::Unknown(command@),
            Err(ProfileError::Keyboard(_)) => spec_interpret(old(state)@, line@).1 is Commands,
        },
{
    match state.feed_line(line) {
        LineOutcome::Commands(commands) => match run_commands(kbd, &commands) {
            Ok(()) => Ok(None),
            Err(error) => Err(ProfileError::Keyboard(error)),
        },
        LineOutcome::Unknown(command) => {
            proof {
                assert(kbd.asked() =~= old(kbd).asked() + spec_done(Seq::empty()));
            }
            if strict {
                Err(ProfileError::UnknownCommand(command))
            } else {
                Ok(Some(command))
            }
        },
    }
}

/// Carries out what is due at the end of a profile that came in line by
/// line: asks the keyboard for the key colours that still wait.
pub fn finish_profile<K: KeyboardApi>(state: ProfileState, kbd: &mut K) -> (result: Result<
    (),
    K::Error,
>)
    ensures
        spec_asked_for(old(kbd).asked(), final(kbd).asked(), spec_finish(state@), result),
        spec_finish(state@).len() == 0 ==> result is Ok,
{
    let commands = state.finish();
    run_commands(kbd, &commands)
}

} // verus!
