//! The single reports: fixed in size, a header in front, zero at the end.

use crate::effects::{NativeEffect, NativeEffectPart, NativeEffectStorage};
use crate::model::KeyboardModel;
use crate::model_spec::{addresses_view, spec_model_spec};
use crate::types::{Color, Key, KeyValue, OnBoardMode, Period, StartupMode};
use vstd::prelude::*;
use vstd::slice::slice_to_vec;

verus! {

/// `data` brought to `size` bytes: what lies beyond is cut, what is missing
/// is zero.
pub open spec fn spec_pad(data: Seq<u8>, size: nat) -> Seq<u8> {
    Seq::new(size, |i: int| if i < data.len() { data[i] } else { 0u8 })
}

/// Bring a report to its fixed size.
pub fn pad(data: Vec<u8>, size: usize) -> (packet: Vec<u8>)
    ensures
        packet@ == spec_pad(data@, size as nat),
{
    let mut packet = data;
    packet.resize(size, 0x00);
    assert(packet@ =~= spec_pad(data@, size as nat));
    packet
}

/// A header followed by its value bytes, as a padded 20-byte report.
pub open spec fn spec_short_report(header: Seq<u8>, values: Seq<u8>) -> Seq<u8> {
    spec_pad(header + values, 20)
}

/// The commit header of the model as a 20-byte report; `None` for a model
/// without one.
pub open spec fn spec_commit_packet(model: KeyboardModel) -> Option<Seq<u8>> {
    match spec_model_spec(model).commit {
        Some(header) => Some(spec_pad(header, 20)),
        None => None,
    }
}

/// The report that makes the keyboard apply what was staged; `None` for a
/// model that applies changes at once.
pub fn commit_packet(model: KeyboardModel) -> (packet: Option<Vec<u8>>)
    ensures
        option_view(packet) == spec_commit_packet(model),
        packet matches Some(bytes) ==> spec_report_len(bytes@.len()),
{
    match model.spec().commit {
        Some(commit_bytes) => Some(pad(slice_to_vec(commit_bytes), 20)),
        None => None,
    }
}

/// The contents of an optional report.
pub open spec fn option_view(packet: Option<Vec<u8>>) -> Option<Seq<u8>> {
    match packet {
        Some(bytes) => Some(bytes@),
        None => None,
    }
}

/// The contents of a list of reports.
pub open spec fn reports_view(packets: Seq<Vec<u8>>) -> Seq<Seq<u8>> {
    packets.map_values(|packet: Vec<u8>| packet@)
}

/// A report more in a list is a report more in its contents.
pub proof fn lemma_reports_view_push(packets: Seq<Vec<u8>>, packet: Vec<u8>)
    ensures
        reports_view(packets.push(packet)) == reports_view(packets).push(packet@),
{
    assert(reports_view(packets.push(packet)) =~= reports_view(packets).push(packet@));
}

/// A report has one of the two sizes that the transport takes.
pub open spec fn spec_report_len(len: nat) -> bool {
    len == 20 || len == 64
}

/// Every report of the list has one of the two sizes.
pub open spec fn spec_reports_sized(packets: Seq<Seq<u8>>) -> bool {
    forall|i: int| 0 <= i < packets.len() ==> spec_report_len((#[trigger] packets[i]).len())
}

/// Appends the reports of `more` to `packets`, in order.
pub fn append_reports(packets: &mut Vec<Vec<u8>>, more: Vec<Vec<u8>>)
    ensures
        reports_view(final(packets)@) == reports_view(old(packets)@) + reports_view(more@),
        spec_reports_sized(reports_view(old(packets)@)) && spec_reports_sized(reports_view(more@))
            ==> spec_reports_sized(reports_view(final(packets)@)),
{
    let ghost before = packets@;
    let ghost added = more@;
    let mut more = more;
    packets.append(&mut more);
    assert(reports_view(packets@) =~= reports_view(before) + reports_view(added));
}

/// The header of the first line of `table` that is for `group`.
pub open spec fn spec_find_address(table: Seq<(u8, Seq<u8>)>, group: u8) -> Option<Seq<u8>>
    decreases table.len(),
{
    if table.len() == 0 {
        None
    } else if table[0].0 == group {
        Some(table[0].1)
    } else {
        spec_find_address(table.drop_first(), group)
    }
}

/// The header that the registry has for an address group of a model.
pub open spec fn spec_group_address(model: KeyboardModel, group: u8) -> Option<Seq<u8>> {
    spec_find_address(spec_model_spec(model).group_addresses, group)
}

/// The report header under which a model takes the keys of an address group.
pub fn group_address(model: KeyboardModel, group: u8) -> (header: Option<&'static [u8]>)
    ensures
        match header {
            Some(bytes) => spec_group_address(model, group) == Some(bytes@),
            None => spec_group_address(model, group) is None,
        },
{
    let table = model.spec().group_addresses;
    let ghost lines = addresses_view(table);
    let mut i: usize = 0;
    proof {
        assert(lines.skip(0) == lines);
    }
    while i < table.len()
        invariant
            i <= table.len(),
            lines == addresses_view(table),
            lines == spec_model_spec(model).group_addresses,
            spec_group_address(model, group) == spec_find_address(lines.skip(i as int), group),
        decreases table.len() - i,
    {
        let entry = table[i];
        proof {
            assert(lines.skip(i as int)[0] == (entry.0, entry.1@));
            assert(lines.skip(i as int).drop_first() == lines.skip(i + 1));
        }
        if entry.0 == group {
            return Some(entry.1);
        }
        i += 1;
    }
    None
}

/// The identifier by which the G815 knows a key in its key reports. The
/// reports address the first logo light, the multimedia keys but `Stop`, and
/// the keys of address group 4; they address no indicator and no G-key, nor
/// the second logo light.
pub open spec fn spec_g815_key_id(key: Key) -> Option<u8> {
    match key {
        Key::Logo2 | Key::Stop => None,
        Key::Play => Some(0x9bu8),
        Key::Mute => Some(0x9cu8),
        Key::Next => Some(0x9du8),
        Key::Prev => Some(0x9eu8),
        Key::CtrlLeft
        | Key::ShiftLeft
        | Key::AltLeft
        | Key::WinLeft
        | Key::CtrlRight
        | Key::ShiftRight
        | Key::AltRight
        | Key::WinRight => Some((key.spec_hid_code() - 0x78) as u8),
        _ => if key.spec_group() == 0 {
            Some((key.spec_hid_code() + 0xd1) as u8)
        } else if key.spec_group() == 4 {
            Some((key.spec_hid_code() - 0x03) as u8)
        } else {
            None
        },
    }
}

/// Find the identifier by which the G815 knows a key.
pub fn g815_key_id(key: Key) -> (id: Option<u8>)
    ensures
        id == spec_g815_key_id(key),
{
    let low = key.hid_code();
    match key {
        Key::Logo2 | Key::Stop => None,
        Key::Play => Some(0x9b),
        Key::Mute => Some(0x9c),
        Key::Next => Some(0x9d),
        Key::Prev => Some(0x9e),
        Key::CtrlLeft
        | Key::ShiftLeft
        | Key::AltLeft
        | Key::WinLeft
        | Key::CtrlRight
        | Key::ShiftRight
        | Key::AltRight
        | Key::WinRight => Some(low - 0x78),
        _ => {
            let group = key.group();
            if group == 0 {
                Some(low + 0xd1)
            } else if group == 4 {
                Some(low - 0x03)
            } else {
                None
            }
        },
    }
}

/// The identifiers of the G815: no indicator and no G-key has one; an
/// identifier is neither the zero that fills a report nor the end mark
/// `0xff`; and no two keys share one.
pub proof fn lemma_g815_key_ids(a: Key, b: Key)
    ensures
        a.spec_group() == 1 || a.spec_group() == 3 ==> spec_g815_key_id(a) is None,
        spec_g815_key_id(a) matches Some(id) ==> id != 0x00 && id != 0xff,
        spec_g815_key_id(a) is Some && spec_g815_key_id(a) == spec_g815_key_id(b) ==> a == b,
{
}

/// Every request of the batch has the colour of the first.
pub open spec fn spec_same_color(keys: Seq<KeyValue>) -> bool {
    forall|i: int| 0 <= i < keys.len() ==> (#[trigger] keys[i]).color == keys[0].color
}

/// Every key of the batch lies in the address group of the first.
pub open spec fn spec_same_group(keys: Seq<KeyValue>) -> bool {
    forall|i: int|
        0 <= i < keys.len() ==> (#[trigger] keys[i]).key.spec_group() == keys[0].key.spec_group()
}

/// Size of the report that carries keys of an address group.
pub open spec fn spec_report_size(group: u8) -> nat {
    if group == 0 {
        20
    } else {
        64
    }
}

/// Number of keys that one report of an address group holds.
pub open spec fn spec_max_keys(group: u8) -> nat {
    ((spec_report_size(group) - 8) / 4) as nat
}

/// Number of keys that one single-colour report holds.
pub const SINGLE_COLOR_MAX_KEYS: usize = 13;

/// One request as it stands in a key report: code, red, green, blue.
pub open spec fn spec_key_quad(kv: KeyValue) -> Seq<u8> {
    seq![kv.key.spec_hid_code(), kv.color.red, kv.color.green, kv.color.blue]
}

/// The requests of a batch one after the other, four bytes each.
pub open spec fn spec_key_quads(keys: Seq<KeyValue>) -> Seq<u8> {
    keys.map_values(|kv: KeyValue| spec_key_quad(kv)).flatten()
}

/// The identifiers of the keys of a batch that the G815 can address, in
/// batch order.
pub open spec fn spec_g815_ids(keys: Seq<KeyValue>) -> Seq<u8> {
    keys.filter_map(|kv: KeyValue| spec_g815_key_id(kv.key))
}

/// The first `count` requests of a batch, or all of them where it has fewer.
pub open spec fn spec_first(keys: Seq<KeyValue>, count: nat) -> Seq<KeyValue> {
    if keys.len() <= count {
        keys
    } else {
        keys.take(count as int)
    }
}

/// The single-colour report of the G815: header, the shared colour, one
/// identifier for each addressable key among the first 13, and the end mark
/// `0xff` where the report is not full.
pub open spec fn spec_single_color_packet(header: Seq<u8>, keys: Seq<KeyValue>) -> Seq<u8>
    recommends
        keys.len() > 0,
{
    let color = keys[0].color;
    let body = header + seq![color.red, color.green, color.blue] + spec_g815_ids(
        spec_first(keys, SINGLE_COLOR_MAX_KEYS as nat),
    );
    spec_pad(
        if body.len() < 20 {
            body.push(0xffu8)
        } else {
            body
        },
        20,
    )
}

/// The report of the other models: header, then four bytes for each of the
/// keys that fit.
pub open spec fn spec_group_packet(header: Seq<u8>, keys: Seq<KeyValue>) -> Seq<u8>
    recommends
        keys.len() > 0,
{
    let group = keys[0].key.spec_group();
    spec_pad(
        header + spec_key_quads(spec_first(keys, spec_max_keys(group))),
        spec_report_size(group),
    )
}

/// The report that sets the keys of a batch:
/// - none for an empty batch and for the models without key reports;
/// - on the G815 the single-colour report, where the batch has one colour;
/// - on the other models the report of the batch's address group, where the
///   batch has one group and the model a header for it.
pub open spec fn spec_set_keys_packet(model: KeyboardModel, keys: Seq<KeyValue>) -> Option<
    Seq<u8>,
> {
    if keys.len() == 0 {
        None
    } else {
        match model {
            KeyboardModel::G213 | KeyboardModel::G413 => None,
            KeyboardModel::G815 => match spec_model_spec(model).keys_header {
                Some(header) if spec_same_color(keys) => Some(
                    spec_single_color_packet(header, keys),
                ),
                _ => None,
            },
            _ => match spec_group_address(model, keys[0].key.spec_group()) {
                Some(header) if spec_same_group(keys) => Some(spec_group_packet(header, keys)),
                _ => None,
            },
        }
    }
}

fn same_color(keys: &[KeyValue]) -> (same: bool)
    ensures
        same == spec_same_color(keys@),
{
    let mut i: usize = 0;
    while i < keys.len()
        invariant
            i <= keys.len(),
            forall|j: int| 0 <= j < i ==> (#[trigger] keys@[j]).color == keys@[0].color,
        decreases keys.len() - i,
    {
        if keys[i].color != keys[0].color {
            return false;
        }
        i += 1;
    }
    true
}

fn same_group(keys: &[KeyValue]) -> (same: bool)
    ensures
        same == spec_same_group(keys@),
{
    let mut i: usize = 0;
    while i < keys.len()
        invariant
            i <= keys.len(),
            forall|j: int|
                0 <= j < i ==> (#[trigger] keys@[j]).key.spec_group() == keys@[0].key.spec_group(),
        decreases keys.len() - i,
    {
        if keys[i].key.group() != keys[0].key.group() {
            return false;
        }
        i += 1;
    }
    true
}

/// A request more in a batch is four bytes more in the body of its report.
pub proof fn lemma_key_quads_push(keys: Seq<KeyValue>, kv: KeyValue)
    ensures
        spec_key_quads(keys.push(kv)) == spec_key_quads(keys) + spec_key_quad(kv),
{
    let quad = |kv: KeyValue| spec_key_quad(kv);
    assert(keys.push(kv).map_values(quad) =~= keys.map_values(quad).push(spec_key_quad(kv)));
    keys.map_values(quad).lemma_flatten_push(spec_key_quad(kv));
}

/// Builds the single-colour report of the G815.
fn single_color_packet(header: &[u8], keys: &[KeyValue]) -> (packet: Vec<u8>)
    requires
        keys@.len() > 0,
    ensures
        packet@ == spec_single_color_packet(header@, keys@),
        packet@.len() == 20,
{
    let color = keys[0].color;
    let mut data = slice_to_vec(header);
    data.push(color.red);
    data.push(color.green);
    data.push(color.blue);
    let count = if keys.len() <= SINGLE_COLOR_MAX_KEYS {
        keys.len()
    } else {
        SINGLE_COLOR_MAX_KEYS
    };
    let ghost first = spec_first(keys@, SINGLE_COLOR_MAX_KEYS as nat);
    let ghost id_of = |kv: KeyValue| spec_g815_key_id(kv.key);
    let ghost prefix = header@ + seq![color.red, color.green, color.blue];
    assert(data@ =~= prefix);
    let mut i: usize = 0;
    while i < count
        invariant
            i <= count <= keys.len(),
            first.len() == count,
            first == spec_first(keys@, SINGLE_COLOR_MAX_KEYS as nat),
            id_of == (|kv: KeyValue| spec_g815_key_id(kv.key)),
            data@ == prefix + first.take(i as int).filter_map(id_of),
        decreases count - i,
    {
        proof {
            first.lemma_filter_map_take_succ(id_of, i as int);
            assert(first[i as int] == keys@[i as int]);
        }
        match g815_key_id(keys[i].key) {
            Some(id) => {
                data.push(id);
            },
            None => {},
        }
        assert(data@ =~= prefix + first.take(i + 1).filter_map(id_of));
        i += 1;
    }
    assert(first.take(count as int) == first);
    if data.len() < 20 {
        data.push(0xff);
    }
    pad(data, 20)
}

/// Builds the report that carries keys of one address group.
fn group_packet(header: &[u8], keys: &[KeyValue]) -> (packet: Vec<u8>)
    requires
        keys@.len() > 0,
    ensures
        packet@ == spec_group_packet(header@, keys@),
        spec_report_len(packet@.len()),
{
    let group = keys[0].key.group();
    let size: usize = if group == 0 {
        20
    } else {
        64
    };
    let max_keys = (size - 8) / 4;
    let mut data = slice_to_vec(header);
    let count = if keys.len() <= max_keys {
        keys.len()
    } else {
        max_keys
    };
    let ghost first = spec_first(keys@, spec_max_keys(group));
    let mut i: usize = 0;
    assert(first.take(0).map_values(|kv: KeyValue| spec_key_quad(kv)) =~= Seq::empty());
    assert(data@ =~= header@ + spec_key_quads(first.take(0)));
    while i < count
        invariant
            i <= count <= keys.len(),
            first.len() == count,
            first == spec_first(keys@, spec_max_keys(group)),
            data@ == header@ + spec_key_quads(first.take(i as int)),
        decreases count - i,
    {
        let kv = keys[i];
        proof {
            assert(first[i as int] == kv);
            assert(first.take(i + 1) == first.take(i as int).push(kv));
            lemma_key_quads_push(first.take(i as int), kv);
        }
        data.push(kv.key.hid_code());
        data.push(kv.color.red);
        data.push(kv.color.green);
        data.push(kv.color.blue);
        assert(data@ =~= header@ + spec_key_quads(first.take(i + 1)));
        i += 1;
    }
    assert(first.take(count as int) == first);
    pad(data, size)
}

/// Build the report that sets the keys of a batch. The batch must hold one
/// colour for the G815 and one address group for the other models; of a
/// batch that is too long for one report, the keys that fit are set.
pub fn set_keys_packet(model: KeyboardModel, keys: &[KeyValue]) -> (packet: Option<Vec<u8>>)
    ensures
        option_view(packet) == spec_set_keys_packet(model, keys@),
        packet matches Some(bytes) ==> spec_report_len(bytes@.len()),
{
    if keys.len() == 0 {
        return None;
    }
    match model {
        KeyboardModel::G213 | KeyboardModel::G413 => None,
        KeyboardModel::G815 => {
            if !same_color(keys) {
                return None;
            }
            match model.spec().keys_header {
                Some(header) => Some(single_color_packet(header, keys)),
                None => None,
            }
        },
        _ => {
            if !same_group(keys) {
                return None;
            }
            match group_address(model, keys[0].key.group()) {
                Some(header) => Some(group_packet(header, keys)),
                None => None,
            }
        },
    }
}

/// The region header of the model, the region, `0x01` and the colour, as a
/// 20-byte report; `None` for a model without regions.
pub open spec fn spec_region_packet(model: KeyboardModel, region: u8, color: Color) -> Option<
    Seq<u8>,
> {
    match spec_model_spec(model).region_header {
        Some(header) => Some(
            spec_short_report(header, seq![region, 0x01u8, color.red, color.green, color.blue]),
        ),
        None => None,
    }
}

/// The report that gives one colour to a region of the keyboard; `None` for
/// a model without regions.
pub fn region_packet(model: KeyboardModel, region: u8, color: Color) -> (packet: Option<Vec<u8>>)
    ensures
        option_view(packet) == spec_region_packet(model, region, color),
        packet matches Some(bytes) ==> spec_report_len(bytes@.len()),
{
    let header = match model.spec().region_header {
        Some(header) => header,
        None => {
            return None;
        },
    };
    let mut data = slice_to_vec(header);
    data.push(region);
    data.push(0x01);
    data.push(color.red);
    data.push(color.green);
    data.push(color.blue);
    assert(data@ =~= header@ + seq![region, 0x01u8, color.red, color.green, color.blue]);
    Some(pad(data, 20))
}

/// The 20-byte descriptor of a built-in effect: registers, part, family,
/// colour, the period (high byte, low byte, twice), variant, `0x64`, the
/// period's high byte again, storage, and three zero bytes.
pub open spec fn spec_effect_descriptor(
    registers: (u8, u8),
    effect: NativeEffect,
    part: NativeEffectPart,
    period: Period,
    color: Color,
    storage: NativeEffectStorage,
) -> Seq<u8> {
    let millis = period.spec_wire_millis();
    let high = (millis / 256) as u8;
    let low = (millis % 256) as u8;
    seq![
        0x11u8,
        0xffu8,
        registers.0,
        registers.1,
        part.spec_code(),
        effect.spec_group().spec_code(),
        color.red,
        color.green,
        color.blue,
        high,
        low,
        high,
        low,
        effect.spec_subcode(),
        0x64u8,
        high,
        storage.spec_code(),
        0x00u8,
        0x00u8,
        0x00u8,
    ]
}

/// The descriptor of an effect on `Keys` or `Logo` for a model with effect
/// registers; `None` for any other model and for the part `All`.
pub open spec fn spec_native_effect_packet(
    model: KeyboardModel,
    effect: NativeEffect,
    part: NativeEffectPart,
    period: Period,
    color: Color,
    storage: NativeEffectStorage,
) -> Option<Seq<u8>> {
    match spec_model_spec(model).effect_params {
        Some(registers) if part != NativeEffectPart::All => Some(
            spec_effect_descriptor(registers, effect, part, period, color, storage),
        ),
        _ => None,
    }
}

/// The descriptor of a built-in effect on one part of the keyboard; `None`
/// for a model without effect registers and for the part `All`, which is no
/// part of its own.
pub fn native_effect_packet(
    model: KeyboardModel,
    effect: NativeEffect,
    part: NativeEffectPart,
    period: Period,
    color: Color,
    storage: NativeEffectStorage,
) -> (packet: Option<Vec<u8>>)
    ensures
        option_view(packet) == spec_native_effect_packet(
            model,
            effect,
            part,
            period,
            color,
            storage,
        ),
        packet matches Some(bytes) ==> spec_report_len(bytes@.len()),
{
    if part == NativeEffectPart::All {
        return None;
    }
    let (bank, address) = match model.spec().effect_params {
        Some(registers) => registers,
        None => {
            return None;
        },
    };
    let millis = period.wire_millis();
    let high = (millis / 256) as u8;
    let low = (millis % 256) as u8;
    let data = vec![
        0x11,
        0xff,
        bank,
        address,
        part.code(),
        effect.group().code(),
        color.red,
        color.green,
        color.blue,
        high,
        low,
        high,
        low,
        effect.subcode(),
        0x64,
        high,
        storage.code(),
        0x00,
        0x00,
        0x00,
    ];
    let packet = pad(data, 20);
    assert(packet@ =~= spec_effect_descriptor(
        (bank, address),
        effect,
        part,
        period,
        color,
        storage,
    ));
    Some(packet)
}

/// The report of the MR key: header and value on the G815 and the G910,
/// for the values 0 and 1.
pub open spec fn spec_mr_packet(model: KeyboardModel, value: u8) -> Option<Seq<u8>> {
    match model {
        KeyboardModel::G815 if value <= 1 => Some(
            spec_short_report(seq![0x11u8, 0xff, 0x0c, 0x0c], seq![value]),
        ),
        KeyboardModel::G910 if value <= 1 => Some(
            spec_short_report(seq![0x11u8, 0xff, 0x0a, 0x0e], seq![value]),
        ),
        _ => None,
    }
}

/// The report that switches the light of the MR key: 0 or 1, on the two
/// models that have the key.
pub fn mr_packet(model: KeyboardModel, value: u8) -> (packet: Option<Vec<u8>>)
    ensures
        option_view(packet) == spec_mr_packet(model, value),
        packet matches Some(bytes) ==> spec_report_len(bytes@.len()),
{
    let data = match model {
        KeyboardModel::G815 if value <= 1 => vec![0x11, 0xff, 0x0c, 0x0c, value],
        KeyboardModel::G910 if value <= 1 => vec![0x11, 0xff, 0x0a, 0x0e, value],
        _ => {
            return None;
        },
    };
    assert(data@ =~= data@.take(4) + seq![value]);
    assert(data@.take(4) =~= seq![0x11u8, 0xff, data@[2], data@[3]]);
    Some(pad(data, 20))
}

/// The byte that selects the lights of the M-keys on the G815.
pub open spec fn spec_g815_mn_value(value: u8) -> Option<u8> {
    if value == 1 {
        Some(0x01u8)
    } else if value == 2 {
        Some(0x02u8)
    } else if value == 3 {
        Some(0x04u8)
    } else {
        None
    }
}

/// The report of the M-keys: header and mask on the G815 for the keys 1 to
/// 3, header and value on the G910 for the values 0 to 7.
pub open spec fn spec_mn_packet(model: KeyboardModel, value: u8) -> Option<Seq<u8>> {
    match model {
        KeyboardModel::G815 => match spec_g815_mn_value(value) {
            Some(mask) => Some(spec_short_report(seq![0x11u8, 0xff, 0x0b, 0x1c], seq![mask])),
            None => None,
        },
        KeyboardModel::G910 if value <= 7 => Some(
            spec_short_report(seq![0x11u8, 0xff, 0x09, 0x1e], seq![value]),
        ),
        _ => None,
    }
}

/// The report that switches the lights of the M-keys: key 1, 2 or 3 on the
/// G815, a mask from 0 to 7 on the G910.
pub fn mn_packet(model: KeyboardModel, value: u8) -> (packet: Option<Vec<u8>>)
    ensures
        option_view(packet) == spec_mn_packet(model, value),
        packet matches Some(bytes) ==> spec_report_len(bytes@.len()),
{
    let data = match model {
        KeyboardModel::G815 => {
            let mask: u8 = match value {
                1 => 0x01,
                2 => 0x02,
                3 => 0x04,
                _ => {
                    return None;
                },
            };
            let data = vec![0x11, 0xff, 0x0b, 0x1c, mask];
            assert(data@ =~= seq![0x11u8, 0xff, 0x0b, 0x1c] + seq![mask]);
            data
        },
        KeyboardModel::G910 if value <= 7 => {
            let data = vec![0x11, 0xff, 0x09, 0x1e, value];
            assert(data@ =~= seq![0x11u8, 0xff, 0x09, 0x1e] + seq![value]);
            data
        },
        _ => {
            return None;
        },
    };
    Some(pad(data, 20))
}

/// The report of the G-keys mode: header and value on the G815 and the
/// G910, for the values 0 and 1.
pub open spec fn spec_gkeys_mode_packet(model: KeyboardModel, value: u8) -> Option<Seq<u8>> {
    match model {
        KeyboardModel::G815 if value <= 1 => Some(
            spec_short_report(seq![0x11u8, 0xff, 0x0a, 0x2b], seq![value]),
        ),
        KeyboardModel::G910 if value <= 1 => Some(
            spec_short_report(seq![0x11u8, 0xff, 0x08, 0x2e], seq![value]),
        ),
        _ => None,
    }
}

/// The report that sets the mode of the G-keys: 0 or 1, on the two models
/// that have them.
pub fn gkeys_mode_packet(model: KeyboardModel, value: u8) -> (packet: Option<Vec<u8>>)
    ensures
        option_view(packet) == spec_gkeys_mode_packet(model, value),
        packet matches Some(bytes) ==> spec_report_len(bytes@.len()),
{
    let data = match model {
        KeyboardModel::G815 if value <= 1 => vec![0x11, 0xff, 0x0a, 0x2b, value],
        KeyboardModel::G910 if value <= 1 => vec![0x11, 0xff, 0x08, 0x2e, value],
        _ => {
            return None;
        },
    };
    assert(data@ =~= data@.take(4) + seq![value]);
    assert(data@.take(4) =~= seq![0x11u8, 0xff, data@[2], data@[3]]);
    Some(pad(data, 20))
}

/// The report of the start-up mode: header and the code of the mode, on the
/// six models that can be told what to show at power-up.
pub open spec fn spec_startup_mode_packet(model: KeyboardModel, mode: StartupMode) -> Option<
    Seq<u8>,
> {
    match model {
        KeyboardModel::G213
        | KeyboardModel::G410
        | KeyboardModel::G610
        | KeyboardModel::G810
        | KeyboardModel::GPro => Some(
            spec_short_report(seq![0x11u8, 0xff, 0x0d, 0x5a, 0x00, 0x01], seq![mode.spec_code()]),
        ),
        KeyboardModel::G910 => Some(
            spec_short_report(seq![0x11u8, 0xff, 0x10, 0x5e, 0x00, 0x01], seq![mode.spec_code()]),
        ),
        _ => None,
    }
}

/// The report that sets what the keyboard shows at power-up.
pub fn startup_mode_packet(model: KeyboardModel, mode: StartupMode) -> (packet: Option<Vec<u8>>)
    ensures
        option_view(packet) == spec_startup_mode_packet(model, mode),
        packet matches Some(bytes) ==> spec_report_len(bytes@.len()),
{
    let mut data = match model {
        KeyboardModel::G213
        | KeyboardModel::G410
        | KeyboardModel::G610
        | KeyboardModel::G810
        | KeyboardModel::GPro => vec![0x11, 0xff, 0x0d, 0x5a, 0x00, 0x01],
        KeyboardModel::G910 => vec![0x11, 0xff, 0x10, 0x5e, 0x00, 0x01],
        _ => {
            return None;
        },
    };
    let ghost header = data@;
    data.push(mode.code());
    assert(data@ =~= header + seq![mode.spec_code()]);
    assert(header =~= seq![0x11u8, 0xff, header[2], header[3], 0x00, 0x01]);
    Some(pad(data, 20))
}

/// The report of the on-board mode: header and the code of the mode, on the
/// G815.
pub open spec fn spec_on_board_mode_packet(model: KeyboardModel, mode: OnBoardMode) -> Option<
    Seq<u8>,
> {
    match model {
        KeyboardModel::G815 => Some(
            spec_short_report(seq![0x11u8, 0xff, 0x11, 0x1a], seq![mode.spec_code()]),
        ),
        _ => None,
    }
}

/// The report that hands the lighting to the keyboard's own memory or to the
/// host.
pub fn on_board_mode_packet(model: KeyboardModel, mode: OnBoardMode) -> (packet: Option<Vec<u8>>)
    ensures
        option_view(packet) == spec_on_board_mode_packet(model, mode),
        packet matches Some(bytes) ==> spec_report_len(bytes@.len()),
{
    match model {
        KeyboardModel::G815 => {
            let data = vec![0x11, 0xff, 0x11, 0x1a, mode.code()];
            assert(data@ =~= seq![0x11u8, 0xff, 0x11, 0x1a] + seq![mode.spec_code()]);
            Some(pad(data, 20))
        },
        _ => None,
    }
}

/// Every key report header of a model that sorts keys by address group is
/// eight bytes long.
pub proof fn lemma_group_header_len(model: KeyboardModel, group: u8)
    requires
        model != KeyboardModel::G815,
    ensures
        spec_group_address(model, group) matches Some(header) ==> header.len() == 8,
{
    reveal_with_fuel(spec_find_address, 5);
}

/// The four bytes of each request make up the body of a key report.
pub proof fn lemma_key_quads_len(keys: Seq<KeyValue>)
    ensures
        spec_key_quads(keys).len() == 4 * keys.len(),
    decreases keys.len(),
{
    if keys.len() == 0 {
        assert(keys.map_values(|kv: KeyValue| spec_key_quad(kv)) =~= Seq::empty());
    } else {
        lemma_key_quads_len(keys.drop_last());
        assert(keys == keys.drop_last().push(keys.last()));
        lemma_key_quads_push(keys.drop_last(), keys.last());
    }
}

/// The scan code of a key splits into its address group and the code that
/// the firmware knows it by. On a model that sorts keys by address group the
/// group of a key picks the header of the report that sets it: there is such
/// a report exactly where the model has a header for the group, and the
/// report opens with that header and goes on with the key's code and colour.
/// The G815 has one header for the keys of all groups, and two models have
/// no key reports.
pub proof fn lemma_key_group_selects_header(model: KeyboardModel, kv: KeyValue)
    ensures
        kv.key.spec_code() == 256 * kv.key.spec_group() + kv.key.spec_hid_code(),
        match model {
            KeyboardModel::G213 | KeyboardModel::G413 => spec_set_keys_packet(model, seq![kv])
                is None,
            KeyboardModel::G815 => {
                &&& spec_set_keys_packet(model, seq![kv]) matches Some(packet)
                &&& packet.len() == 20
                &&& Some(packet.take(4)) == spec_model_spec(model).keys_header
                &&& packet.subrange(4, 7) == seq![kv.color.red, kv.color.green, kv.color.blue]
            },
            _ => match spec_group_address(model, kv.key.spec_group()) {
                Some(header) => {
                    &&& spec_set_keys_packet(model, seq![kv]) matches Some(packet)
                    &&& packet.len() == spec_report_size(kv.key.spec_group())
                    &&& packet.take(8) == header
                    &&& packet.subrange(8, 12) == spec_key_quad(kv)
                },
                None => spec_set_keys_packet(model, seq![kv]) is None,
            },
        },
{
    let keys = seq![kv];
    match model {
        KeyboardModel::G213 | KeyboardModel::G413 => {},
        KeyboardModel::G815 => {
            let header = spec_model_spec(model).keys_header.unwrap();
            let packet = spec_single_color_packet(header, keys);
            assert(packet.take(4) =~= header);
            assert(packet.subrange(4, 7) =~= seq![kv.color.red, kv.color.green, kv.color.blue]);
        },
        _ => {
            lemma_group_header_len(model, kv.key.spec_group());
            assert(keys.map_values(|kv: KeyValue| spec_key_quad(kv)) =~= seq![spec_key_quad(kv)]);
            seq![spec_key_quad(kv)].lemma_flatten_singleton();
            match spec_group_address(model, kv.key.spec_group()) {
                Some(header) => {
                    let packet = spec_group_packet(header, keys);
                    assert(packet.take(8) =~= header);
                    assert(packet.subrange(8, 12) =~= spec_key_quad(kv));
                },
                None => {},
            }
        },
    }
}

/// The reports that switch the MR key, the M-keys, the G-keys and the
/// on-board mode open with the header that the registry has for the
/// operation, and so does the report of the start-up mode: where there is
/// such a report, the model has the header.
pub proof fn lemma_mode_headers_are_registered(
    model: KeyboardModel,
    value: u8,
    startup: StartupMode,
    board: OnBoardMode,
)
    ensures
        spec_mr_packet(model, value) matches Some(packet) ==> spec_model_spec(model).mr_header
            == Some(packet.take(4)),
        spec_mn_packet(model, value) matches Some(packet) ==> spec_model_spec(model).mn_header
            == Some(packet.take(4)),
        spec_gkeys_mode_packet(model, value) matches Some(packet) ==> spec_model_spec(
            model,
        ).gkeys_header == Some(packet.take(4)),
        spec_on_board_mode_packet(model, board) matches Some(packet) ==> spec_model_spec(
            model,
        ).onboard_header == Some(packet.take(4)),
        spec_startup_mode_packet(model, startup) matches Some(packet) ==> spec_model_spec(
            model,
        ).startup_header == Some(packet.take(6)),
{
    match spec_mr_packet(model, value) {
        Some(packet) => {
            assert(spec_model_spec(model).mr_header.unwrap() =~= packet.take(4));
        },
        None => {},
    }
    match spec_mn_packet(model, value) {
        Some(packet) => {
            assert(spec_model_spec(model).mn_header.unwrap() =~= packet.take(4));
        },
        None => {},
    }
    match spec_gkeys_mode_packet(model, value) {
        Some(packet) => {
            assert(spec_model_spec(model).gkeys_header.unwrap() =~= packet.take(4));
        },
        None => {},
    }
    match spec_on_board_mode_packet(model, board) {
        Some(packet) => {
            assert(spec_model_spec(model).onboard_header.unwrap() =~= packet.take(4));
        },
        None => {},
    }
    match spec_startup_mode_packet(model, startup) {
        Some(packet) => {
            assert(spec_model_spec(model).startup_header.unwrap() =~= packet.take(6));
        },
        None => {},
    }
}

/// On the G815 the byte that selects the lights of the M-keys is the one
/// that the registry maps the key to.
pub proof fn lemma_mn_value_is_registered(value: u8)
    ensures
        match spec_g815_mn_value(value) {
            Some(mask) => spec_model_spec(KeyboardModel::G815).mn_map.unwrap().contains(
                (value, mask),
            ),
            None => forall|mask: u8|
                !spec_model_spec(KeyboardModel::G815).mn_map.unwrap().contains((value, mask)),
        },
{
    let map = spec_model_spec(KeyboardModel::G815).mn_map.unwrap();
    assert(map[0] == (1u8, 1u8) && map[1] == (2u8, 2u8) && map[2] == (3u8, 4u8));
}

} // verus!
