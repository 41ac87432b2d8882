//! The built-in effects and the reports that run them.

use crate::model::KeyboardModel;
use crate::packet::{
    append_reports, lemma_reports_view_push, native_effect_packet, pad, reports_view,
    spec_native_effect_packet, spec_pad, spec_reports_sized,
};
use crate::types::{Color, Period};
use vstd::prelude::*;

verus! {

/// The family of a built-in animation.
#[derive(Clone, Copy, Debug, PartialEq, Eq, Structural)]
pub enum NativeEffectGroup {
    Off,
    Color,
    Breathing,
    Cycle,
    Waves,
    Ripple,
}

impl NativeEffectGroup {
    /// The code that stands for the value on the wire.
    pub open spec fn spec_code(self) -> u8 {
        match self {
            NativeEffectGroup::Off => 0,
            NativeEffectGroup::Color => 1,
            NativeEffectGroup::Breathing => 2,
            NativeEffectGroup::Cycle => 3,
            NativeEffectGroup::Waves => 4,
            NativeEffectGroup::Ripple => 5,
        }
    }

    /// The code that stands for the value on the wire.
    #[verifier::when_used_as_spec(spec_code)]
    pub fn code(self) -> (code: u8)
        ensures
            code == self.spec_code(),
    {
        match self {
            NativeEffectGroup::Off => 0,
            NativeEffectGroup::Color => 1,
            NativeEffectGroup::Breathing => 2,
            NativeEffectGroup::Cycle => 3,
            NativeEffectGroup::Waves => 4,
            NativeEffectGroup::Ripple => 5,
        }
    }
}

/// A built-in animation. Its two-byte code holds the family in the high byte
/// and the variant within the family in the low byte.
#[derive(Clone, Copy, Debug, PartialEq, Eq, Structural)]
pub enum NativeEffect {
    Off,
    Color,
    Breathing,
    Cycle,
    Waves,
    HWave,
    VWave,
    CWave,
    Ripple,
}

impl NativeEffect {
    /// The code that stands for the value on the wire.
    pub open spec fn spec_code(self) -> u16 {
        match self {
            NativeEffect::Off => 0x0000,
            NativeEffect::Color => 0x0100,
            NativeEffect::Breathing => 0x0200,
            NativeEffect::Cycle => 0x0300,
            NativeEffect::Waves => 0x0400,
            NativeEffect::HWave => 0x0401,
            NativeEffect::VWave => 0x0402,
            NativeEffect::CWave => 0x0403,
            NativeEffect::Ripple => 0x0500,
        }
    }

    /// The code that stands for the value on the wire.
    #[verifier::when_used_as_spec(spec_code)]
    pub fn code(self) -> (code: u16)
        ensures
            code == self.spec_code(),
    {
        match self {
            NativeEffect::Off => 0x0000,
            NativeEffect::Color => 0x0100,
            NativeEffect::Breathing => 0x0200,
            NativeEffect::Cycle => 0x0300,
            NativeEffect::Waves => 0x0400,
            NativeEffect::HWave => 0x0401,
            NativeEffect::VWave => 0x0402,
            NativeEffect::CWave => 0x0403,
            NativeEffect::Ripple => 0x0500,
        }
    }

    /// The family of the effect.
    pub open spec fn spec_group(self) -> NativeEffectGroup {
        match self {
            NativeEffect::Off => NativeEffectGroup::Off,
            NativeEffect::Color => NativeEffectGroup::Color,
            NativeEffect::Breathing => NativeEffectGroup::Breathing,
            NativeEffect::Cycle => NativeEffectGroup::Cycle,
            NativeEffect::Waves
            | NativeEffect::HWave
            | NativeEffect::VWave
            | NativeEffect::CWave => NativeEffectGroup::Waves,
            NativeEffect::Ripple => NativeEffectGroup::Ripple,
        }
    }

    /// The family of the effect: the one whose code is the high byte of the
    /// effect's code.
    #[verifier::when_used_as_spec(spec_group)]
    pub fn group(self) -> (group: NativeEffectGroup)
        ensures
            group == self.spec_group(),
            group.spec_code() == self.spec_code() / 256,
    {
        match self {
            NativeEffect::Off => NativeEffectGroup::Off,
            NativeEffect::Color => NativeEffectGroup::Color,
            NativeEffect::Breathing => NativeEffectGroup::Breathing,
            NativeEffect::Cycle => NativeEffectGroup::Cycle,
            NativeEffect::Waves
            | NativeEffect::HWave
            | NativeEffect::VWave
            | NativeEffect::CWave => NativeEffectGroup::Waves,
            NativeEffect::Ripple => NativeEffectGroup::Ripple,
        }
    }

    /// The low byte of the effect's code.
    pub open spec fn spec_subcode(self) -> u8 {
        (self.spec_code() % 256) as u8
    }

    /// The variant within the family: the low byte of the effect's code.
    #[verifier::when_used_as_spec(spec_subcode)]
    pub fn subcode(self) -> (code: u8)
        ensures
            code == self.spec_subcode(),
    {
        (self.code() % 256) as u8
    }
}

/// The lights an effect runs on. `All` stands for the keys and then the logo.
#[derive(Clone, Copy, Debug, PartialEq, Eq, Structural)]
pub enum NativeEffectPart {
    All,
    Keys,
    Logo,
}

impl NativeEffectPart {
    /// The code that stands for the value on the wire.
    pub open spec fn spec_code(self) -> u8 {
        match self {
            NativeEffectPart::All => 0xff,
            NativeEffectPart::Keys => 0x00,
            NativeEffectPart::Logo => 0x01,
        }
    }

    /// The code that stands for the value on the wire.
    #[verifier::when_used_as_spec(spec_code)]
    pub fn code(self) -> (code: u8)
        ensures
            code == self.spec_code(),
    {
        match self {
            NativeEffectPart::All => 0xff,
            NativeEffectPart::Keys => 0x00,
            NativeEffectPart::Logo => 0x01,
        }
    }
}

/// Where an effect is kept.
#[derive(Clone, Copy, Debug, PartialEq, Eq, Structural)]
pub enum NativeEffectStorage {
    /// Kept nowhere: the effect is lost when the keyboard loses power.
    Volatile,
    /// Stored in the keyboard and recalled from there.
    User,
}

impl NativeEffectStorage {
    /// The code that stands for the value on the wire.
    pub open spec fn spec_code(self) -> u8 {
        match self {
            NativeEffectStorage::Volatile => 0x00,
            NativeEffectStorage::User => 0x01,
        }
    }

    /// The code that stands for the value on the wire.
    #[verifier::when_used_as_spec(spec_code)]
    pub fn code(self) -> (code: u8)
        ensures
            code == self.spec_code(),
    {
        match self {
            NativeEffectStorage::Volatile => 0x00,
            NativeEffectStorage::User => 0x01,
        }
    }
}

/// The colour that stands in for a wave on a logo that cannot show one.
pub open spec fn spec_cyan() -> Color {
    Color { red: 0x00, green: 0xff, blue: 0xff }
}

/// The report that the G815 wants before every effect descriptor.
pub open spec fn spec_g815_setup() -> Seq<u8> {
    spec_pad(seq![0x11u8, 0xff, 0x0f, 0x5c, 0x01, 0x03, 0x03], 20)
}

/// The byte by which the G815 knows an effect on its logo.
pub open spec fn spec_g815_logo_effect(effect: NativeEffect) -> u8 {
    match effect {
        NativeEffect::Breathing => 0x03,
        NativeEffect::HWave
        | NativeEffect::VWave
        | NativeEffect::CWave
        | NativeEffect::Waves
        | NativeEffect::Cycle => 0x02,
        NativeEffect::Ripple | NativeEffect::Off => 0x00,
        NativeEffect::Color => 0x01,
    }
}

/// The effect descriptor as the G815 wants it. Byte 16 is 1. For the keys,
/// byte 4 is 1, and a ripple carries its period in bytes 10 and 11, low
/// byte first, between two zero bytes. For the logo, byte 4 is 0, byte 5
/// names the effect, and the three directed waves have `0x64` in byte 13.
pub open spec fn spec_g815_descriptor(
    base: Seq<u8>,
    effect: NativeEffect,
    part: NativeEffectPart,
    period: Period,
) -> Seq<u8> {
    let millis = period.spec_wire_millis();
    let marked = base.update(16, 0x01u8);
    match part {
        NativeEffectPart::Keys => {
            let keys = marked.update(4, 0x01u8);
            if effect == NativeEffect::Ripple {
                keys.update(9, 0x00u8).update(10, (millis % 256) as u8).update(
                    11,
                    (millis / 256) as u8,
                ).update(12, 0x00u8)
            } else {
                keys
            }
        },
        NativeEffectPart::Logo => {
            let logo = marked.update(4, 0x00u8).update(5, spec_g815_logo_effect(effect));
            if effect == NativeEffect::HWave || effect == NativeEffect::VWave || effect
                == NativeEffect::CWave {
                logo.update(13, 0x64u8)
            } else {
                logo
            }
        },
        NativeEffectPart::All => marked,
    }
}

/// The model has no light behind its logo.
pub open spec fn spec_no_logo(model: KeyboardModel) -> bool {
    model == KeyboardModel::G213 || model == KeyboardModel::G413
}

/// The reports that run an effect on one part, `Keys` or `Logo`:
/// - none, and success, for the logo of a model that has no logo light;
/// - failure where the model has no descriptor for the effect;
/// - on the G815, the setup report and then the descriptor in its G815 form;
/// - elsewhere one descriptor, which for a wave on the logo is that of
///   static cyan with period zero.
pub open spec fn spec_part_packets(
    model: KeyboardModel,
    effect: NativeEffect,
    part: NativeEffectPart,
    period: Period,
    color: Color,
    storage: NativeEffectStorage,
) -> Option<Seq<Seq<u8>>> {
    if spec_no_logo(model) && part == NativeEffectPart::Logo {
        Some(Seq::empty())
    } else {
        match spec_native_effect_packet(model, effect, part, period, color, storage) {
            None => None,
            Some(base) => {
                if model == KeyboardModel::G815 {
                    Some(seq![spec_g815_setup(), spec_g815_descriptor(base, effect, part, period)])
                } else if effect.spec_group() == NativeEffectGroup::Waves && part
                    == NativeEffectPart::Logo {
                    match spec_native_effect_packet(
                        model,
                        NativeEffect::Color,
                        part,
                        Period { millis: 0 },
                        spec_cyan(),
                        storage,
                    ) {
                        Some(cyan) => Some(seq![cyan]),
                        None => None,
                    }
                } else {
                    Some(seq![base])
                }
            },
        }
    }
}

/// The reports of a result, none where it failed.
pub open spec fn spec_packets_or_none(packets: Option<Seq<Seq<u8>>>) -> Seq<Seq<u8>> {
    match packets {
        Some(list) => list,
        None => Seq::empty(),
    }
}

/// The reports that run an effect. On `All` they are those for the keys
/// followed by those for the logo, a part that fails adding none; on one
/// part they are `spec_part_packets`.
pub open spec fn spec_native_effect_packets(
    model: KeyboardModel,
    effect: NativeEffect,
    part: NativeEffectPart,
    period: Period,
    color: Color,
    storage: NativeEffectStorage,
) -> Option<Seq<Seq<u8>>> {
    if part == NativeEffectPart::All {
        Some(
            spec_packets_or_none(
                spec_part_packets(model, effect, NativeEffectPart::Keys, period, color, storage),
            ) + spec_packets_or_none(
                spec_part_packets(model, effect, NativeEffectPart::Logo, period, color, storage),
            ),
        )
    } else {
        spec_part_packets(model, effect, part, period, color, storage)
    }
}

/// The contents of an optional list of reports.
pub open spec fn option_reports_view(packets: Option<Vec<Vec<u8>>>) -> Option<Seq<Seq<u8>>> {
    match packets {
        Some(list) => Some(reports_view(list@)),
        None => None,
    }
}

/// Turn an effect into the reports that run it. `Some` of an empty list
/// means that there is nothing to send; `None` that the model cannot run the
/// effect on that part.
pub fn native_effect_packets(
    model: KeyboardModel,
    effect: NativeEffect,
    part: NativeEffectPart,
    period: Period,
    color: Color,
    storage: NativeEffectStorage,
) -> (packets: Option<Vec<Vec<u8>>>)
    ensures
        option_reports_view(packets) == spec_native_effect_packets(
            model,
            effect,
            part,
            period,
            color,
            storage,
        ),
        packets matches Some(list) ==> spec_reports_sized(reports_view(list@)),
    decreases
            (if part == NativeEffectPart::All {
                2nat
            } else if effect.spec_group() == NativeEffectGroup::Waves {
                1nat
            } else {
                0nat
            }),
{
    if part == NativeEffectPart::All {
        let mut packets: Vec<Vec<u8>> = Vec::new();
        assert(reports_view(packets@) =~= Seq::empty());
        match native_effect_packets(model, effect, NativeEffectPart::Keys, period, color, storage) {
            Some(keys) => {
                append_reports(&mut packets, keys);
            },
            None => {},
        }
        match native_effect_packets(model, effect, NativeEffectPart::Logo, period, color, storage) {
            Some(logo) => {
                append_reports(&mut packets, logo);
            },
            None => {},
        }
        return Some(packets);
    }
    if (model == KeyboardModel::G213 || model == KeyboardModel::G413) && part
        == NativeEffectPart::Logo {
        let packets: Vec<Vec<u8>> = Vec::new();
        assert(reports_view(packets@) =~= Seq::empty());
        return Some(packets);
    }
    let mut data = match native_effect_packet(model, effect, part, period, color, storage) {
        Some(data) => data,
        None => {
            return None;
        },
    };
    let ghost base = data@;
    let mut packets: Vec<Vec<u8>> = Vec::new();
    assert(reports_view(packets@) =~= Seq::empty());
    if model == KeyboardModel::G815 {
        let setup = pad(vec![0x11, 0xff, 0x0f, 0x5c, 0x01, 0x03, 0x03], 20);
        proof {
            lemma_reports_view_push(packets@, setup);
        }
        packets.push(setup);
        data[16] = 0x01;
        match part {
            NativeEffectPart::Keys => {
                data[4] = 0x01;
                if effect == NativeEffect::Ripple {
                    let millis = period.wire_millis();
                    data[9] = 0x00;
                    data[10] = (millis % 256) as u8;
                    data[11] = (millis / 256) as u8;
                    data[12] = 0x00;
                }
            },
            NativeEffectPart::Logo => {
                data[4] = 0x00;
                data[5] = match effect {
                    NativeEffect::Breathing => 0x03,
                    NativeEffect::HWave | NativeEffect::VWave | NativeEffect::CWave => {
                        data[13] = 0x64;
                        0x02
                    },
                    NativeEffect::Waves | NativeEffect::Cycle => 0x02,
                    NativeEffect::Ripple | NativeEffect::Off => 0x00,
                    NativeEffect::Color => 0x01,
                };
            },
            NativeEffectPart::All => {},
        }
        assert(data@ =~= spec_g815_descriptor(base, effect, part, period));
    } else if effect.group() == NativeEffectGroup::Waves && part == NativeEffectPart::Logo {
        return native_effect_packets(
            model,
            NativeEffect::Color,
            part,
            Period { millis: 0 },
            Color { red: 0x00, green: 0xff, blue: 0xff },
            storage,
        );
    }
    proof {
        lemma_reports_view_push(packets@, data);
    }
    packets.push(data);
    Some(packets)
}

/// An effect on all lights takes the reports for the keys followed by the
/// reports for the logo, and always succeeds: a part that the model cannot
/// serve adds no report.
pub proof fn lemma_all_is_keys_then_logo(
    model: KeyboardModel,
    effect: NativeEffect,
    period: Period,
    color: Color,
    storage: NativeEffectStorage,
)
    ensures
        spec_native_effect_packets(model, effect, NativeEffectPart::All, period, color, storage)
            == Some(
            spec_packets_or_none(
                spec_native_effect_packets(
                    model,
                    effect,
                    NativeEffectPart::Keys,
                    period,
                    color,
                    storage,
                ),
            ) + spec_packets_or_none(
                spec_native_effect_packets(
                    model,
                    effect,
                    NativeEffectPart::Logo,
                    period,
                    color,
                    storage,
                ),
            ),
        ),
{
}

/// On every model but the G815, a wave on the logo takes the reports of the
/// static colour cyan with period zero, whatever colour and period were asked
/// for.
pub proof fn lemma_logo_wave_is_static_cyan(
    model: KeyboardModel,
    effect: NativeEffect,
    period: Period,
    color: Color,
    storage: NativeEffectStorage,
)
    requires
        model != KeyboardModel::G815,
        effect.spec_group() == NativeEffectGroup::Waves,
    ensures
        spec_native_effect_packets(model, effect, NativeEffectPart::Logo, period, color, storage)
            == spec_native_effect_packets(
            model,
            NativeEffect::Color,
            NativeEffectPart::Logo,
            Period { millis: 0 },
            spec_cyan(),
            storage,
        ),
{
}

impl NativeEffectGroup {
    /// The name of the value, as profiles and command lines write it.
    pub open spec fn spec_name(self) -> Seq<char> {
        match self {
            NativeEffectGroup::Off => "off"@,
            NativeEffectGroup::Color => "color"@,
            NativeEffectGroup::Breathing => "breathing"@,
            NativeEffectGroup::Cycle => "cycle"@,
            NativeEffectGroup::Waves => "waves"@,
            NativeEffectGroup::Ripple => "ripple"@,
        }
    }

    /// The name of the family.
    pub fn name(self) -> (name: &'static str)
        ensures
            name@ == self.spec_name(),
    {
        match self {
            NativeEffectGroup::Off => "off",
            NativeEffectGroup::Color => "color",
            NativeEffectGroup::Breathing => "breathing",
            NativeEffectGroup::Cycle => "cycle",
            NativeEffectGroup::Waves => "waves",
            NativeEffectGroup::Ripple => "ripple",
        }
    }
}

impl NativeEffect {
    /// The name of the value, as profiles and command lines write it.
    pub open spec fn spec_name(self) -> Seq<char> {
        match self {
            NativeEffect::Off => "off"@,
            NativeEffect::Color => "color"@,
            NativeEffect::Breathing => "breathing"@,
            NativeEffect::Cycle => "cycle"@,
            NativeEffect::Waves => "waves"@,
            NativeEffect::HWave => "h-wave"@,
            NativeEffect::VWave => "v-wave"@,
            NativeEffect::CWave => "c-wave"@,
            NativeEffect::Ripple => "ripple"@,
        }
    }

    /// The name of the effect, as profiles and command lines write it.
    pub fn name(self) -> (name: &'static str)
        ensures
            name@ == self.spec_name(),
    {
        match self {
            NativeEffect::Off => "off",
            NativeEffect::Color => "color",
            NativeEffect::Breathing => "breathing",
            NativeEffect::Cycle => "cycle",
            NativeEffect::Waves => "waves",
            NativeEffect::HWave => "h-wave",
            NativeEffect::VWave => "v-wave",
            NativeEffect::CWave => "c-wave",
            NativeEffect::Ripple => "ripple",
        }
    }
}

impl NativeEffectPart {
    /// The name of the value, as profiles and command lines write it.
    pub open spec fn spec_name(self) -> Seq<char> {
        match self {
            NativeEffectPart::All => "all"@,
            NativeEffectPart::Keys => "keys"@,
            NativeEffectPart::Logo => "logo"@,
        }
    }

    /// The name of the part, as profiles and command lines write it.
    pub fn name(self) -> (name: &'static str)
        ensures
            name@ == self.spec_name(),
    {
        match self {
            NativeEffectPart::All => "all",
            NativeEffectPart::Keys => "keys",
            NativeEffectPart::Logo => "logo",
        }
    }
}

impl NativeEffectStorage {
    /// The name of the value, as profiles and command lines write it.
    pub open spec fn spec_name(self) -> Seq<char> {
        match self {
            NativeEffectStorage::Volatile => "none"@,
            NativeEffectStorage::User => "user"@,
        }
    }

    /// The name of the storage, as profiles and command lines write it.
    pub fn name(self) -> (name: &'static str)
        ensures
            name@ == self.spec_name(),
    {
        match self {
            NativeEffectStorage::Volatile => "none",
            NativeEffectStorage::User => "user",
        }
    }
}

/// On the G815 an effect on the keys or on the logo takes two reports: the
/// setup report and the descriptor with byte 16 set to 1. For the keys byte
/// 4 is 1, and a ripple has its period in bytes 10 and 11, low byte first,
/// between two zero bytes; for the logo byte 4 is 0 and byte 5 names the
/// effect. Every byte that is not named here is that of the plain
/// descriptor, but byte 13 of a directed wave on the logo.
pub proof fn lemma_g815_descriptor(
    effect: NativeEffect,
    part: NativeEffectPart,
    period: Period,
    color: Color,
    storage: NativeEffectStorage,
)
    requires
        part != NativeEffectPart::All,
    ensures
        ({
            let packets = spec_native_effect_packets(
                KeyboardModel::G815,
                effect,
                part,
                period,
                color,
                storage,
            );
            let base = spec_native_effect_packet(
                KeyboardModel::G815,
                effect,
                part,
                period,
                color,
                storage,
            );
            let millis = period.spec_wire_millis();
            &&& base is Some
            &&& packets matches Some(list)
            &&& list.len() == 2
            &&& list[0] == spec_g815_setup()
            &&& list[1].len() == 20
            &&& list[1][16] == 0x01
            &&& part == NativeEffectPart::Keys ==> list[1][4] == 0x01
            &&& part == NativeEffectPart::Keys && effect == NativeEffect::Ripple ==> {
                &&& list[1][9] == 0x00
                &&& list[1][10] == millis % 256
                &&& list[1][11] == millis / 256
                &&& list[1][12] == 0x00
                &&& forall|i: int|
                    0 <= i < 20 && i != 4 && i != 16 && !(9 <= i <= 12) ==> list[1][i]
                        == base.unwrap()[i]
            }
            &&& part == NativeEffectPart::Keys && effect != NativeEffect::Ripple ==> forall|i: int|
                0 <= i < 20 && i != 4 && i != 16 ==> list[1][i] == base.unwrap()[i]
            &&& part == NativeEffectPart::Logo ==> {
                &&& list[1][4] == 0x00
                &&& list[1][5] == spec_g815_logo_effect(effect)
                &&& forall|i: int|
                    0 <= i < 20 && i != 4 && i != 5 && i != 13 && i != 16 ==> list[1][i]
                        == base.unwrap()[i]
            }
        }),
{
}

} // verus!
