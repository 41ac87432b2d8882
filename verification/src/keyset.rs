//! The reports of a batch of key colours: the requests that may travel
//! together are put together, in the order in which the batch first names
//! them, and cut into runs that fit a report.

use crate::model::KeyboardModel;
use crate::packet::{
    lemma_group_header_len, lemma_key_quads_len, lemma_reports_view_push, reports_view,
    set_keys_packet, SINGLE_COLOR_MAX_KEYS, spec_first, spec_group_address, spec_group_packet,
    spec_key_quads, spec_max_keys, spec_report_size, spec_reports_sized, spec_same_color,
    spec_same_group, spec_set_keys_packet,
};
use crate::types::KeyValue;
use vstd::prelude::*;
use vstd::slice::{slice_subrange, slice_to_vec};

verus! {

/// The model takes no colours for single keys.
pub open spec fn spec_no_key_reports(model: KeyboardModel) -> bool {
    model == KeyboardModel::G213 || model == KeyboardModel::G413
}

/// Two requests may travel in one report: on the G815 those of one colour,
/// on the other models those of one address group.
pub open spec fn spec_together(model: KeyboardModel, a: KeyValue, b: KeyValue) -> bool {
    if model == KeyboardModel::G815 {
        a.color == b.color
    } else {
        a.key.spec_group() == b.key.spec_group()
    }
}

/// Number of requests that one report holds, for the reports that `head`
/// travels in.
pub open spec fn spec_capacity(model: KeyboardModel, head: KeyValue) -> nat {
    if model == KeyboardModel::G815 {
        SINGLE_COLOR_MAX_KEYS as nat
    } else {
        spec_max_keys(head.key.spec_group())
    }
}

/// The requests of `keys` that travel with `head`, in batch order.
pub open spec fn spec_with(model: KeyboardModel, head: KeyValue, keys: Seq<KeyValue>) -> Seq<
    KeyValue,
> {
    keys.filter(|kv: KeyValue| spec_together(model, head, kv))
}

/// The requests of `keys` that do not travel with `head`, in batch order.
pub open spec fn spec_without(model: KeyboardModel, head: KeyValue, keys: Seq<KeyValue>) -> Seq<
    KeyValue,
> {
    keys.filter(|kv: KeyValue| !spec_together(model, head, kv))
}

/// The reports for requests that travel together: one for each run of
/// `capacity` requests, in order, a run for which the model has no report
/// adding none.
pub open spec fn spec_chunk_packets(
    model: KeyboardModel,
    part: Seq<KeyValue>,
    capacity: nat,
) -> Seq<Seq<u8>>
    decreases part.len(),
{
    if part.len() == 0 || capacity == 0 {
        Seq::empty()
    } else {
        let chunk = spec_first(part, capacity);
        let rest = part.skip(chunk.len() as int);
        (match spec_set_keys_packet(model, chunk) {
            Some(packet) => seq![packet],
            None => Seq::empty(),
        }) + spec_chunk_packets(model, rest, capacity)
    }
}

/// The reports that apply a batch. The requests that travel with the first
/// one go first, in batch order, then in the same way what is left: so the
/// classes come in the order in which the batch first names them.
pub open spec fn spec_set_keys_packets(model: KeyboardModel, keys: Seq<KeyValue>) -> Seq<Seq<u8>>
    decreases keys.len(),
{
    if spec_no_key_reports(model) || keys.len() == 0 {
        Seq::empty()
    } else {
        let head = keys[0];
        proof {
            lemma_without_is_shorter(model, keys);
        }
        spec_chunk_packets(model, spec_with(model, head, keys), spec_capacity(model, head))
            + spec_set_keys_packets(model, spec_without(model, head, keys))
    }
}

/// What is left after the requests that travel with the first one is
/// shorter than the batch.
pub proof fn lemma_without_is_shorter(model: KeyboardModel, keys: Seq<KeyValue>)
    requires
        keys.len() > 0,
    ensures
        spec_without(model, keys[0], keys).len() < keys.len(),
{
    let head = keys[0];
    let apart = |kv: KeyValue| !spec_together(model, head, kv);
    let tail = keys.drop_first();
    assert(keys =~= seq![head] + tail);
    Seq::filter_distributes_over_add(seq![head], tail, apart);
    reveal_with_fuel(Seq::filter, 2);
    assert(seq![head].filter(apart) =~= Seq::empty()) by {
        assert(seq![head].drop_last() =~= Seq::<KeyValue>::empty());
    }
    tail.lemma_filter_len(apart);
}

fn together(model: KeyboardModel, a: KeyValue, b: KeyValue) -> (same: bool)
    ensures
        same == spec_together(model, a, b),
{
    if model == KeyboardModel::G815 {
        a.color == b.color
    } else {
        a.key.group() == b.key.group()
    }
}

/// Splits a batch into the requests that travel with `head` and the others.
fn split_batch(model: KeyboardModel, head: KeyValue, keys: &Vec<KeyValue>) -> (parts: (
    Vec<KeyValue>,
    Vec<KeyValue>,
))
    ensures
        parts.0@ == spec_with(model, head, keys@),
        parts.1@ == spec_without(model, head, keys@),
{
    let ghost with = |kv: KeyValue| spec_together(model, head, kv);
    let ghost without = |kv: KeyValue| !spec_together(model, head, kv);
    let mut mine: Vec<KeyValue> = Vec::new();
    let mut rest: Vec<KeyValue> = Vec::new();
    let mut i: usize = 0;
    proof {
        reveal_with_fuel(Seq::filter, 1);
        assert(keys@.take(0).filter(with) =~= Seq::empty());
        assert(keys@.take(0).filter(without) =~= Seq::empty());
    }
    while i < keys.len()
        invariant
            i <= keys.len(),
            with == (|kv: KeyValue| spec_together(model, head, kv)),
            without == (|kv: KeyValue| !spec_together(model, head, kv)),
            mine@ == keys@.take(i as int).filter(with),
            rest@ == keys@.take(i as int).filter(without),
        decreases keys.len() - i,
    {
        let kv = keys[i];
        proof {
            assert(keys@.take(i + 1) == keys@.take(i as int).push(kv));
            keys@.take(i as int).lemma_filter_push(kv, with);
            keys@.take(i as int).lemma_filter_push(kv, without);
        }
        if together(model, head, kv) {
            mine.push(kv);
        } else {
            rest.push(kv);
        }
        i += 1;
    }
    proof {
        assert(keys@.take(keys.len() as int) == keys@);
    }
    (mine, rest)
}

/// Appends the reports for requests that travel together.
fn push_chunk_packets(
    model: KeyboardModel,
    part: &Vec<KeyValue>,
    capacity: usize,
    packets: &mut Vec<Vec<u8>>,
)
    requires
        capacity > 0,
        spec_reports_sized(reports_view(old(packets)@)),
    ensures
        reports_view(final(packets)@) == reports_view(old(packets)@) + spec_chunk_packets(
            model,
            part@,
            capacity as nat,
        ),
        spec_reports_sized(reports_view(final(packets)@)),
{
    let ghost before = reports_view(packets@);
    let mut start: usize = 0;
    proof {
        assert(part@.skip(0) == part@);
    }
    while start < part.len()
        invariant
            start <= part.len(),
            capacity > 0,
            spec_reports_sized(reports_view(packets@)),
            before + spec_chunk_packets(model, part@, capacity as nat) == reports_view(packets@)
                + spec_chunk_packets(model, part@.skip(start as int), capacity as nat),
        decreases part.len() - start,
    {
        let left = part.len() - start;
        let count = if left <= capacity {
            left
        } else {
            capacity
        };
        let chunk = slice_subrange(part.as_slice(), start, start + count);
        proof {
            let tail = part@.skip(start as int);
            assert(chunk@ =~= spec_first(tail, capacity as nat));
            assert(tail.skip(count as int) =~= part@.skip(start + count));
        }
        match set_keys_packet(model, chunk) {
            Some(packet) => {
                proof {
                    lemma_reports_view_push(packets@, packet);
                }
                packets.push(packet);
            },
            None => {},
        }
        start += count;
    }
}

/// The reports that apply a batch of key colours, in the order in which the
/// transport is to have them. None for a model that takes no colours for
/// single keys, and none for requests that the model has no report for.
pub fn set_keys_packets(model: KeyboardModel, keys: &[KeyValue]) -> (packets: Vec<Vec<u8>>)
    ensures
        reports_view(packets@) == spec_set_keys_packets(model, keys@),
        spec_reports_sized(reports_view(packets@)),
        spec_no_key_reports(model) ==> packets@.len() == 0,
{
    let mut packets: Vec<Vec<u8>> = Vec::new();
    assert(reports_view(packets@) =~= Seq::empty());
    if model == KeyboardModel::G213 || model == KeyboardModel::G413 {
        return packets;
    }
    let mut remaining = slice_to_vec(keys);
    while remaining.len() > 0
        invariant
            !spec_no_key_reports(model),
            spec_reports_sized(reports_view(packets@)),
            spec_set_keys_packets(model, keys@) == reports_view(packets@) + spec_set_keys_packets(
                model,
                remaining@,
            ),
        decreases remaining.len(),
    {
        let head = remaining[0];
        let (mine, rest) = split_batch(model, head, &remaining);
        let capacity = if model == KeyboardModel::G815 {
            SINGLE_COLOR_MAX_KEYS
        } else if head.key.group() == 0 {
            3
        } else {
            14
        };
        proof {
            lemma_without_is_shorter(model, remaining@);
        }
        push_chunk_packets(model, &mine, capacity, &mut packets);
        remaining = rest;
    }
    packets
}

/// `chunk` is a run of a batch: at least one request and no more than one
/// report holds, all of them requests of `keys` that travel together.
pub open spec fn spec_is_run(
    model: KeyboardModel,
    keys: Seq<KeyValue>,
    chunk: Seq<KeyValue>,
) -> bool {
    &&& 0 < chunk.len() <= spec_capacity(model, chunk[0])
    &&& forall|j: int|
        0 <= j < chunk.len() ==> spec_together(model, chunk[0], #[trigger] chunk[j])
            && keys.contains(chunk[j])
}

/// `packet` is the report of a run of `keys`.
pub open spec fn spec_is_run_report(
    model: KeyboardModel,
    keys: Seq<KeyValue>,
    packet: Seq<u8>,
) -> bool {
    exists|chunk: Seq<KeyValue>|
        spec_is_run(model, keys, chunk) && #[trigger] spec_set_keys_packet(model, chunk) == Some(
            packet,
        )
}

/// The requests that travel with the first one begin with it.
pub proof fn lemma_with_starts_with_head(model: KeyboardModel, keys: Seq<KeyValue>)
    requires
        keys.len() > 0,
    ensures
        spec_with(model, keys[0], keys).len() > 0,
        spec_with(model, keys[0], keys)[0] == keys[0],
{
    let head = keys[0];
    let with = |kv: KeyValue| spec_together(model, head, kv);
    let tail = keys.drop_first();
    assert(keys =~= seq![head] + tail);
    Seq::filter_distributes_over_add(seq![head], tail, with);
    reveal_with_fuel(Seq::filter, 2);
    assert(seq![head].filter(with) =~= seq![head]) by {
        assert(seq![head].drop_last() =~= Seq::<KeyValue>::empty());
    }
}

proof fn lemma_chunk_packets_are_run_reports(
    model: KeyboardModel,
    keys: Seq<KeyValue>,
    head: KeyValue,
    part: Seq<KeyValue>,
)
    requires
        forall|j: int|
            0 <= j < part.len() ==> spec_together(model, head, #[trigger] part[j]) && keys.contains(
                part[j],
            ),
    ensures
        forall|i: int|
            0 <= i < spec_chunk_packets(model, part, spec_capacity(model, head)).len()
                ==> spec_is_run_report(
                model,
                keys,
                #[trigger] spec_chunk_packets(model, part, spec_capacity(model, head))[i],
            ),
    decreases part.len(),
{
    let capacity = spec_capacity(model, head);
    if part.len() > 0 {
        let chunk = spec_first(part, capacity);
        let rest = part.skip(chunk.len() as int);
        assert forall|j: int| 0 <= j < rest.len() implies spec_together(
            model,
            head,
            #[trigger] rest[j],
        ) && keys.contains(rest[j]) by {
            assert(rest[j] == part[j + chunk.len()]);
        }
        lemma_chunk_packets_are_run_reports(model, keys, head, rest);
        assert forall|j: int| 0 <= j < chunk.len() implies spec_together(
            model,
            chunk[0],
            #[trigger] chunk[j],
        ) && keys.contains(chunk[j]) by {
            assert(chunk[j] == part[j]);
            assert(chunk[0] == part[0]);
        }
        assert(chunk[0] == part[0]);
        assert(spec_is_run(model, keys, chunk));
        let packets = spec_chunk_packets(model, part, capacity);
        assert forall|i: int| 0 <= i < packets.len() implies spec_is_run_report(
            model,
            keys,
            #[trigger] packets[i],
        ) by {
            match spec_set_keys_packet(model, chunk) {
                Some(packet) => {
                    if i > 0 {
                        assert(packets[i] == spec_chunk_packets(model, rest, capacity)[i - 1]);
                    }
                },
                None => {
                    assert(packets[i] == spec_chunk_packets(model, rest, capacity)[i]);
                },
            }
        }
    }
}

/// Every report of a batch is the report of a run of the batch: of one to
/// thirteen requests of one colour on the G815, and of one address group and
/// no more than its reports hold on the other models.
pub proof fn lemma_reports_are_run_reports(model: KeyboardModel, keys: Seq<KeyValue>)
    ensures
        forall|i: int|
            0 <= i < spec_set_keys_packets(model, keys).len() ==> spec_is_run_report(
                model,
                keys,
                #[trigger] spec_set_keys_packets(model, keys)[i],
            ),
    decreases keys.len(),
{
    if !spec_no_key_reports(model) && keys.len() > 0 {
        let head = keys[0];
        let mine = spec_with(model, head, keys);
        let rest = spec_without(model, head, keys);
        let first = spec_chunk_packets(model, mine, spec_capacity(model, head));
        lemma_without_is_shorter(model, keys);
        lemma_reports_are_run_reports(model, rest);
        assert forall|j: int| 0 <= j < mine.len() implies spec_together(
            model,
            head,
            #[trigger] mine[j],
        ) && keys.contains(mine[j]) by {
            keys.lemma_filter_pred(|kv: KeyValue| spec_together(model, head, kv), j);
            assert(mine.contains(mine[j]));
            keys.lemma_filter_contains_rev(|kv: KeyValue| spec_together(model, head, kv), mine[j]);
        }
        lemma_chunk_packets_are_run_reports(model, keys, head, mine);
        let packets = spec_set_keys_packets(model, keys);
        assert forall|i: int| 0 <= i < packets.len() implies spec_is_run_report(
            model,
            keys,
            #[trigger] packets[i],
        ) by {
            if i >= first.len() {
                let packet = spec_set_keys_packets(model, rest)[i - first.len()];
                assert(packets[i] == packet);
                let chunk = choose|chunk: Seq<KeyValue>|
                    spec_is_run(model, rest, chunk) && #[trigger] spec_set_keys_packet(model, chunk)
                        == Some(packet);
                assert forall|j: int| 0 <= j < chunk.len() implies keys.contains(
                    #[trigger] chunk[j],
                ) by {
                    keys.lemma_filter_contains_rev(
                        |kv: KeyValue| !spec_together(model, head, kv),
                        chunk[j],
                    );
                }
                assert(spec_is_run(model, keys, chunk));
            }
        }
    }
}

/// On the G815 every batch that is not empty takes at least one report.
pub proof fn lemma_single_color_batch_has_report(keys: Seq<KeyValue>)
    requires
        keys.len() > 0,
    ensures
        spec_set_keys_packets(KeyboardModel::G815, keys).len() >= 1,
{
    let model = KeyboardModel::G815;
    let head = keys[0];
    let mine = spec_with(model, head, keys);
    lemma_with_starts_with_head(model, keys);
    let chunk = spec_first(mine, SINGLE_COLOR_MAX_KEYS as nat);
    assert forall|j: int| 0 <= j < chunk.len() implies (#[trigger] chunk[j]).color
        == chunk[0].color by {
        assert(chunk[j] == mine[j]);
        keys.lemma_filter_pred(|kv: KeyValue| spec_together(model, head, kv), j);
    }
    assert(spec_set_keys_packet(model, chunk) is Some);
}

/// `packet` is the report that the G815 takes for some one to thirteen
/// requests of `keys` that share one colour.
pub open spec fn spec_is_single_color_report(keys: Seq<KeyValue>, packet: Seq<u8>) -> bool {
    exists|chunk: Seq<KeyValue>|
        {
            &&& 0 < chunk.len() <= 13
            &&& spec_same_color(chunk)
            &&& forall|j: int| 0 <= j < chunk.len() ==> keys.contains(#[trigger] chunk[j])
            &&& #[trigger] spec_set_keys_packet(KeyboardModel::G815, chunk) == Some(packet)
        }
}

/// On the G815 a batch that names two colours takes at least two reports,
/// and every report of a batch is that of one to thirteen requests of the
/// batch that share one colour: the colour the report carries.
pub proof fn lemma_single_color_reports(keys: Seq<KeyValue>)
    ensures
        (exists|i: int, j: int|
            0 <= i < keys.len() && 0 <= j < keys.len() && (#[trigger] keys[i]).color != (
            #[trigger] keys[j]).color) ==> spec_set_keys_packets(KeyboardModel::G815, keys).len()
            >= 2,
        forall|p: int|
            0 <= p < spec_set_keys_packets(KeyboardModel::G815, keys).len()
                ==> spec_is_single_color_report(
                keys,
                #[trigger] spec_set_keys_packets(KeyboardModel::G815, keys)[p],
            ),
{
    let model = KeyboardModel::G815;
    let packets = spec_set_keys_packets(model, keys);
    lemma_reports_are_run_reports(model, keys);
    assert forall|p: int| 0 <= p < packets.len() implies spec_is_single_color_report(
        keys,
        #[trigger] packets[p],
    ) by {
        assert(spec_is_run_report(model, keys, packets[p]));
        let chunk = choose|chunk: Seq<KeyValue>|
            spec_is_run(model, keys, chunk) && #[trigger] spec_set_keys_packet(model, chunk)
                == Some(packets[p]);
        assert(spec_same_color(chunk));
    }
    if exists|i: int, j: int|
        0 <= i < keys.len() && 0 <= j < keys.len() && (#[trigger] keys[i]).color != (
        #[trigger] keys[j]).color {
        let (i, j) = choose|i: int, j: int|
            0 <= i < keys.len() && 0 <= j < keys.len() && (#[trigger] keys[i]).color != (
            #[trigger] keys[j]).color;
        let head = keys[0];
        let apart = |kv: KeyValue| !spec_together(model, head, kv);
        let rest = spec_without(model, head, keys);
        let other = if keys[i].color != head.color {
            i
        } else {
            j
        };
        keys.lemma_filter_contains(apart, other);
        assert(rest.len() > 0);
        lemma_with_starts_with_head(model, keys);
        lemma_without_is_shorter(model, keys);
        lemma_single_color_batch_has_report(rest);
        let mine = spec_with(model, head, keys);
        let chunk = spec_first(mine, SINGLE_COLOR_MAX_KEYS as nat);
        assert forall|k: int| 0 <= k < chunk.len() implies (#[trigger] chunk[k]).color
            == chunk[0].color by {
            assert(chunk[k] == mine[k]);
            keys.lemma_filter_pred(|kv: KeyValue| spec_together(model, head, kv), k);
        }
        assert(spec_set_keys_packet(model, chunk) is Some);
        assert(spec_chunk_packets(model, mine, SINGLE_COLOR_MAX_KEYS as nat).len() >= 1);
    }
}

/// The run of a batch with the given index, counted from 0: the requests
/// from `index * capacity` up to the next multiple of `capacity`, or up to
/// the end of the batch.
pub open spec fn spec_run(keys: Seq<KeyValue>, index: int, capacity: nat) -> Seq<KeyValue> {
    keys.subrange(
        index * capacity,
        if (index + 1) * capacity <= keys.len() {
            (index + 1) * capacity
        } else {
            keys.len() as int
        },
    )
}

proof fn lemma_filter_all(keys: Seq<KeyValue>, pred: spec_fn(KeyValue) -> bool)
    requires
        forall|i: int| 0 <= i < keys.len() ==> pred(#[trigger] keys[i]),
    ensures
        keys.filter(pred) == keys,
    decreases keys.len(),
{
    reveal_with_fuel(Seq::filter, 1);
    if keys.len() > 0 {
        lemma_filter_all(keys.drop_last(), pred);
        assert(keys.drop_last().push(keys.last()) =~= keys);
    }
}

proof fn lemma_filter_none(keys: Seq<KeyValue>, pred: spec_fn(KeyValue) -> bool)
    requires
        forall|i: int| 0 <= i < keys.len() ==> !pred(#[trigger] keys[i]),
    ensures
        keys.filter(pred).len() == 0,
    decreases keys.len(),
{
    reveal_with_fuel(Seq::filter, 1);
    if keys.len() > 0 {
        lemma_filter_none(keys.drop_last(), pred);
    }
}

/// A run of requests of one address group takes the report of the group.
proof fn lemma_run_report(model: KeyboardModel, chunk: Seq<KeyValue>, header: Seq<u8>, group: u8)
    requires
        !spec_no_key_reports(model),
        model != KeyboardModel::G815,
        chunk.len() > 0,
        forall|j: int| 0 <= j < chunk.len() ==> (#[trigger] chunk[j]).key.spec_group() == group,
        spec_group_address(model, group) == Some(header),
    ensures
        spec_set_keys_packet(model, chunk) == Some(spec_group_packet(header, chunk)),
{
    assert(spec_same_group(chunk));
}

/// The runs of what is left after the first run are the runs from the
/// second on.
proof fn lemma_run_shift(part: Seq<KeyValue>, index: int, capacity: nat)
    requires
        0 < capacity < part.len(),
        0 < index,
        (index - 1) * capacity < part.len() - capacity,
    ensures
        spec_run(part.skip(capacity as int), index - 1, capacity) == spec_run(
            part,
            index,
            capacity,
        ),
        index * capacity < part.len(),
{
    assert((index - 1) * capacity + capacity == index * capacity && index * capacity + capacity
        == (index + 1) * capacity) by (nonlinear_arith);
    assert(spec_run(part.skip(capacity as int), index - 1, capacity) =~= spec_run(
        part,
        index,
        capacity,
    ));
}

proof fn lemma_group_chunk_reports(
    model: KeyboardModel,
    part: Seq<KeyValue>,
    header: Seq<u8>,
    group: u8,
    max: nat,
)
    requires
        !spec_no_key_reports(model),
        model != KeyboardModel::G815,
        forall|j: int| 0 <= j < part.len() ==> (#[trigger] part[j]).key.spec_group() == group,
        spec_group_address(model, group) == Some(header),
        max == spec_max_keys(group),
    ensures
        spec_chunk_packets(model, part, max).len() == (part.len() + max - 1) / (max as int),
        forall|i: int|
            0 <= i < spec_chunk_packets(model, part, max).len() ==> {
                &&& #[trigger] spec_chunk_packets(model, part, max)[i] == spec_group_packet(
                    header,
                    spec_run(part, i, max),
                )
                &&& 0 < spec_run(part, i, max).len() <= max
                &&& i * max < part.len()
            },
    decreases part.len(),
{
    assert(max == 3 || max == 14);
    if part.len() > 0 {
        let chunk = spec_first(part, max);
        let rest = part.skip(chunk.len() as int);
        assert forall|j: int| 0 <= j < rest.len() implies (#[trigger] rest[j]).key.spec_group()
            == group by {
            assert(rest[j] == part[j + chunk.len()]);
        }
        lemma_group_chunk_reports(model, rest, header, group, max);
        assert forall|j: int| 0 <= j < chunk.len() implies (#[trigger] chunk[j]).key.spec_group()
            == group by {
            assert(chunk[j] == part[j]);
        }
        lemma_run_report(model, chunk, header, group);
        assert(chunk =~= spec_run(part, 0, max));
        let packets = spec_chunk_packets(model, part, max);
        let later = spec_chunk_packets(model, rest, max);
        assert(packets =~= seq![spec_group_packet(header, chunk)] + later);
        assert forall|i: int| 0 <= i < packets.len() implies {
            &&& #[trigger] packets[i] == spec_group_packet(header, spec_run(part, i, max))
            &&& 0 < spec_run(part, i, max).len() <= max
            &&& i * max < part.len()
        } by {
            if i > 0 {
                assert(packets[i] == later[i - 1]);
                lemma_run_shift(part, i, max);
            }
        }
    }
}

/// `packet` is the report that carries `run` under `header`: the run has at
/// least one request and no more than a report of its group holds; the
/// report has the size of the group's reports, the header in front, then
/// four bytes for each request, and is zero from there on.
pub open spec fn spec_is_group_report(
    header: Seq<u8>,
    run: Seq<KeyValue>,
    packet: Seq<u8>,
) -> bool {
    &&& 0 < run.len() <= spec_max_keys(run[0].key.spec_group())
    &&& packet == spec_group_packet(header, run)
    &&& packet.len() == spec_report_size(run[0].key.spec_group())
    &&& packet.take(8) == header
    &&& packet.subrange(8, 8 + 4 * (run.len() as int)) == spec_key_quads(run)
    &&& forall|j: int| 8 + 4 * run.len() <= j < packet.len() ==> packet[j] == 0
}

/// A batch of `N` keys of one address group, on a model that sorts keys by
/// address group and has a header for that group, takes `ceil(N / max)`
/// reports, `max` being the number of keys that a report of the group holds:
/// one report for each run of `max` keys, in order. Each has the size of the
/// group's reports and is zero behind its last key.
pub proof fn lemma_group_batch_reports(model: KeyboardModel, keys: Seq<KeyValue>, header: Seq<u8>)
    requires
        keys.len() > 0,
        !spec_no_key_reports(model),
        model != KeyboardModel::G815,
        spec_same_group(keys),
        spec_group_address(model, keys[0].key.spec_group()) == Some(header),
    ensures
        spec_set_keys_packets(model, keys).len() == (keys.len() + spec_max_keys(
            keys[0].key.spec_group(),
        ) - 1) / (spec_max_keys(keys[0].key.spec_group()) as int),
        forall|i: int|
            0 <= i < spec_set_keys_packets(model, keys).len() ==> spec_is_group_report(
                header,
                spec_run(keys, i, spec_max_keys(keys[0].key.spec_group())),
                #[trigger] spec_set_keys_packets(model, keys)[i],
            ),
{
    let head = keys[0];
    let group = head.key.spec_group();
    let max = spec_max_keys(group);
    lemma_filter_all(keys, |kv: KeyValue| spec_together(model, head, kv));
    lemma_filter_none(keys, |kv: KeyValue| !spec_together(model, head, kv));
    lemma_group_chunk_reports(model, keys, header, group, max);
    lemma_group_header_len(model, group);
    let packets = spec_set_keys_packets(model, keys);
    assert(packets =~= spec_chunk_packets(model, keys, max)) by {
        reveal_with_fuel(spec_set_keys_packets, 2);
        assert(spec_with(model, head, keys) == keys);
        assert(spec_without(model, head, keys).len() == 0);
        assert(spec_capacity(model, head) == max);
    }
    assert forall|i: int| 0 <= i < packets.len() implies spec_is_group_report(
        header,
        spec_run(keys, i, max),
        #[trigger] packets[i],
    ) by {
        let run = spec_run(keys, i, max);
        assert(packets[i] == spec_chunk_packets(model, keys, max)[i]);
        assert(i * max + max == (i + 1) * max) by (nonlinear_arith);
        assert(run[0] == keys[i * max]);
        assert(run[0].key.spec_group() == group);
        lemma_key_quads_len(run);
        assert(spec_first(run, max) == run);
        assert(packets[i].take(8) =~= header);
        assert(packets[i].subrange(8, 8 + 4 * (run.len() as int)) =~= spec_key_quads(run));
    }
}

} // verus!
