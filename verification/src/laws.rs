//! What holds of a connection over time: the demultiplexer and the writer
//! task each take one decision per turn, and this file states what the
//! decisions of a whole run add up to.

use crate::codec::{lemma_shift_append, spec_append_id, spec_shift_id};
use crate::handles::inbound_feeds;
use crate::reader::{entered, installed, spec_dispatch, Inbound, PoolView, Routing};
use tokio::sync::mpsc;
use vstd::prelude::*;

verus! {

/// The streams that have a routing entry once `routing` has been acted on:
/// an announced stream is installed by whoever takes the announcement, and
/// the end of the transport empties the table.
pub open spec fn known_after(known: Set<u128>, routing: Routing) -> Set<u128> {
    match routing {
        Routing::Announce(id, _) => known.insert(id),
        Routing::Stop => Set::empty(),
        _ => known,
    }
}

/// The decisions of the demultiplexer over all that the frame reader yields,
/// starting with the streams in `known`, where each announced stream is
/// installed before the next frame is looked at. The run ends with the first
/// `Stop`.
pub open spec fn spec_run(known: Set<u128>, events: Seq<Inbound>) -> Seq<Routing>
    decreases events.len(),
{
    if events.len() == 0 {
        Seq::empty()
    } else {
        let first = spec_dispatch(known, events[0]);
        if first is Stop {
            seq![first]
        } else {
            seq![first] + spec_run(known_after(known, first), events.drop_first())
        }
    }
}

/// The payload that a decision hands to stream `id`, if it hands it one: by
/// delivery, or as the first message of the stream it announces.
pub open spec fn handed_to(routing: Routing, id: u128) -> Option<Seq<u8>> {
    match routing {
        Routing::Deliver(to, payload) => if to == id {
            Some(payload)
        } else {
            None
        },
        Routing::Announce(to, payload) => if to == id {
            Some(payload)
        } else {
            None
        },
        _ => None,
    }
}

/// The payloads that a run of decisions hands to stream `id`, in order.
pub open spec fn received(routings: Seq<Routing>, id: u128) -> Seq<Seq<u8>>
    decreases routings.len(),
{
    if routings.len() == 0 {
        Seq::empty()
    } else {
        let rest = received(routings.drop_first(), id);
        match handed_to(routings[0], id) {
            Some(payload) => seq![payload] + rest,
            None => rest,
        }
    }
}

/// The payload that one yield of the frame reader carries for stream `id`.
pub open spec fn carried_by(inbound: Inbound, id: u128) -> Option<Seq<u8>> {
    match inbound {
        Inbound::Body(body) => match spec_shift_id(body) {
            Some((to, payload)) => if to == id {
                Some(payload)
            } else {
                None
            },
            None => None,
        },
        _ => None,
    }
}

/// The payloads that the wire carries for stream `id` before the transport
/// ends, in wire order.
pub open spec fn carried(events: Seq<Inbound>, id: u128) -> Seq<Seq<u8>>
    decreases events.len(),
{
    if events.len() == 0 || events[0] is End {
        Seq::empty()
    } else {
        let rest = carried(events.drop_first(), id);
        match carried_by(events[0], id) {
            Some(payload) => seq![payload] + rest,
            None => rest,
        }
    }
}

/// The number of decisions in a run that announce stream `id`.
pub open spec fn announcements(routings: Seq<Routing>, id: u128) -> nat
    decreases routings.len(),
{
    if routings.len() == 0 {
        0
    } else {
        let rest = announcements(routings.drop_first(), id);
        if routings[0] matches Routing::Announce(to, _) && to == id {
            1 + rest
        } else {
            rest
        }
    }
}

/// Whether some frame before the end of the transport carries stream `id`.
pub open spec fn carries(events: Seq<Inbound>, id: u128) -> bool {
    carried(events, id).len() > 0
}

/// Per-stream order: what a stream receives is what the wire carried for
/// it, payload for payload and in wire order, whatever else was on the wire
/// in between.
pub proof fn lemma_per_stream_order(known: Set<u128>, events: Seq<Inbound>, id: u128)
    ensures
        received(spec_run(known, events), id) == carried(events, id),
    decreases events.len(),
{
    if events.len() > 0 {
        let first = spec_dispatch(known, events[0]);
        let run = spec_run(known, events);
        if first is Stop {
            assert(run.drop_first() =~= Seq::<Routing>::empty());
            assert(received(Seq::<Routing>::empty(), id) =~= Seq::<Seq<u8>>::empty());
        } else {
            let tail = spec_run(known_after(known, first), events.drop_first());
            lemma_per_stream_order(known_after(known, first), events.drop_first(), id);
            assert(run.drop_first() =~= tail);
            assert(run[0] == first);
            assert(handed_to(first, id) == carried_by(events[0], id));
        }
    }
}

/// A stream is announced at most once in a run, and never if it was known
/// at the start; it is announced exactly once if it was unknown and the
/// wire carries a frame for it, however many frames for it follow.
pub proof fn lemma_announced_once(known: Set<u128>, events: Seq<Inbound>, id: u128)
    ensures
        known.contains(id) ==> announcements(spec_run(known, events), id) == 0,
        !known.contains(id) && carries(events, id) ==> announcements(spec_run(known, events), id)
            == 1,
        !known.contains(id) && !carries(events, id) ==> announcements(
            spec_run(known, events),
            id,
        ) == 0,
    decreases events.len(),
{
    if events.len() > 0 {
        let first = spec_dispatch(known, events[0]);
        let run = spec_run(known, events);
        if first is Stop {
            assert(run.drop_first() =~= Seq::<Routing>::empty());
            assert(announcements(Seq::<Routing>::empty(), id) == 0);
        } else {
            let tail = spec_run(known_after(known, first), events.drop_first());
            lemma_announced_once(known_after(known, first), events.drop_first(), id);
            assert(run.drop_first() =~= tail);
            assert(run[0] == first);
        }
    } else {
        assert(announcements(Seq::<Routing>::empty(), id) == 0);
    }
}

/// A frame for a stream that has a routing entry is routed to it, not
/// announced; the table stays as it is.
pub proof fn lemma_known_is_routed(known: Set<u128>, id: u128, payload: Seq<u8>)
    requires
        known.contains(id),
    ensures
        spec_dispatch(known, Inbound::Body(spec_append_id(id, payload))) == Routing::Deliver(
            id,
            payload,
        ),
        known_after(known, Routing::Deliver(id, payload)) == known,
{
    lemma_shift_append(id, payload);
}

/// The first frame of an unknown stream is announced with its payload, and
/// the stream is known from then on.
pub proof fn lemma_unknown_is_announced(known: Set<u128>, id: u128, payload: Seq<u8>)
    requires
        !known.contains(id),
    ensures
        spec_dispatch(known, Inbound::Body(spec_append_id(id, payload))) == Routing::Announce(
            id,
            payload,
        ),
        known_after(known, Routing::Announce(id, payload)).contains(id),
{
    lemma_shift_append(id, payload);
}

/// A frame body too short to hold an identifier, and a read that failed,
/// are dropped: the table stays as it is, and all that follows is routed as
/// if they had not come.
pub proof fn lemma_bad_frame_is_skipped(known: Set<u128>, bad: Inbound, rest: Seq<Inbound>)
    requires
        bad is Failed || (bad matches Inbound::Body(body) && body.len() < 16),
    ensures
        spec_dispatch(known, bad) is Skip,
        spec_run(known, seq![bad] + rest) == seq![Routing::Skip] + spec_run(known, rest),
        forall|id: u128| #[trigger] carried(seq![bad] + rest, id) == carried(rest, id),
{
    let events = seq![bad] + rest;
    assert(events.drop_first() =~= rest);
    assert(events[0] == bad);
}

/// The end of the transport ends the run: no stream keeps a routing entry,
/// and nothing that might come after it is looked at.
pub proof fn lemma_end_ends_every_stream(
    known: Set<u128>,
    before: Seq<Inbound>,
    after: Seq<Inbound>,
)
    ensures
        spec_dispatch(known, Inbound::End) is Stop,
        known_after(known, Routing::Stop) == Set::<u128>::empty(),
        spec_run(known, before + seq![Inbound::End] + after) == spec_run(
            known,
            before + seq![Inbound::End],
        ),
    decreases before.len(),
{
    let long = before + seq![Inbound::End] + after;
    let short = before + seq![Inbound::End];
    assert(long[0] == short[0]);
    if before.len() > 0 {
        let first = spec_dispatch(known, before[0]);
        assert(long.drop_first() =~= before.drop_first() + seq![Inbound::End] + after);
        assert(short.drop_first() =~= before.drop_first() + seq![Inbound::End]);
        lemma_end_ends_every_stream(known_after(known, first), before.drop_first(), after);
    }
}

/// Whether what the frame reader yielded concerns no stream but those that
/// have a routing entry: a failed read, a body too short for an identifier,
/// or a frame of a known stream.
pub open spec fn settled(known: Set<u128>, inbound: Inbound) -> bool {
    match inbound {
        Inbound::End => false,
        Inbound::Failed => true,
        Inbound::Body(body) => match spec_shift_id(body) {
            None => true,
            Some((id, _)) => known.contains(id),
        },
    }
}

/// While all that arrives concerns installed streams, the demultiplexer
/// runs on and the table stays as it is: however many frames come, each
/// frame of a stream is delivered to it and none is announced, each failed
/// read or short body is skipped, and every stream receives what the wire
/// carried for it, in wire order.
pub proof fn lemma_installed_streams_run(known: Set<u128>, events: Seq<Inbound>)
    requires
        forall|k: int| 0 <= k < events.len() ==> settled(known, #[trigger] events[k]),
    ensures
        spec_run(known, events).len() == events.len(),
        forall|k: int|
            0 <= k < events.len() ==> {
                &&& #[trigger] spec_run(known, events)[k] == spec_dispatch(known, events[k])
                &&& !(spec_run(known, events)[k] is Stop)
                &&& !(spec_run(known, events)[k] is Announce)
                &&& known_after(known, spec_run(known, events)[k]) == known
            },
        forall|id: u128| #[trigger] received(spec_run(known, events), id) == carried(events, id),
        forall|id: u128| #[trigger] announcements(spec_run(known, events), id) == 0,
    decreases events.len(),
{
    let run = spec_run(known, events);
    if events.len() > 0 {
        let first = spec_dispatch(known, events[0]);
        let rest = events.drop_first();
        assert(settled(known, events[0]));
        assert(known_after(known, first) == known);
        assert forall|k: int| 0 <= k < rest.len() implies settled(known, #[trigger] rest[k]) by {
            assert(rest[k] == events[k + 1]);
        }
        lemma_installed_streams_run(known, rest);
        let tail = spec_run(known, rest);
        assert(run =~= seq![first] + tail);
        assert forall|k: int| 0 <= k < events.len() implies {
            &&& #[trigger] run[k] == spec_dispatch(known, events[k])
            &&& !(run[k] is Stop)
            &&& !(run[k] is Announce)
            &&& known_after(known, run[k]) == known
        } by {
            if k > 0 {
                assert(run[k] == tail[k - 1]);
                assert(rest[k - 1] == events[k]);
            }
        }
    }
    assert forall|id: u128| #[trigger] received(run, id) == carried(events, id) by {
        lemma_per_stream_order(known, events, id);
    }
    assert forall|id: u128| #[trigger] announcements(run, id) == 0 by {
        lemma_no_announcement(run, id);
    }
}

/// A run without announcements announces no stream.
proof fn lemma_no_announcement(routings: Seq<Routing>, id: u128)
    requires
        forall|k: int| 0 <= k < routings.len() ==> !(#[trigger] routings[k] is Announce),
    ensures
        announcements(routings, id) == 0,
    decreases routings.len(),
{
    if routings.len() > 0 {
        assert(!(routings[0] is Announce));
        assert forall|k: int| 0 <= k < routings.drop_first().len() implies !(
        #[trigger] routings.drop_first()[k] is Announce) by {
            assert(routings.drop_first()[k] == routings[k + 1]);
        }
        lemma_no_announcement(routings.drop_first(), id);
    }
}

/// The frame bodies that the writer task puts on the wire, given what each
/// of its turns decided (a body to forward, or `None` to end) and a frame
/// writer that takes every frame: the bodies in order, up to the first turn
/// that ends the task.
pub open spec fn spec_wire(turns: Seq<Option<Seq<u8>>>) -> Seq<Seq<u8>>
    decreases turns.len(),
{
    if turns.len() == 0 {
        Seq::empty()
    } else {
        match turns[0] {
            Some(body) => seq![body] + spec_wire(turns.drop_first()),
            None => Seq::empty(),
        }
    }
}

/// What the turns of the writer task decide for a run of writes, each a
/// stream and a payload: to forward the payload behind the identifier.
pub open spec fn turns_of(writes: Seq<(u128, Seq<u8>)>) -> Seq<Option<Seq<u8>>> {
    Seq::new(writes.len(), |k: int| Some(spec_append_id(writes[k].0, writes[k].1)))
}

/// What the peer's frame reader yields for frame bodies on the wire.
pub open spec fn arrivals(wire: Seq<Seq<u8>>) -> Seq<Inbound> {
    Seq::new(wire.len(), |k: int| Inbound::Body(wire[k]))
}

/// The payloads written to stream `id` in a run of writes, in order.
pub open spec fn written_to(writes: Seq<(u128, Seq<u8>)>, id: u128) -> Seq<Seq<u8>>
    decreases writes.len(),
{
    if writes.len() == 0 {
        Seq::empty()
    } else {
        let rest = written_to(writes.drop_first(), id);
        if writes[0].0 == id {
            seq![writes[0].1] + rest
        } else {
            rest
        }
    }
}

/// Once a turn has ended the writer task, nothing that was queued behind it
/// reaches the wire.
pub proof fn lemma_nothing_after_close(
    before: Seq<Option<Seq<u8>>>,
    after: Seq<Option<Seq<u8>>>,
)
    ensures
        spec_wire(before + seq![None] + after) == spec_wire(before),
    decreases before.len(),
{
    let turns = before + seq![None] + after;
    if before.len() == 0 {
        assert(turns[0] is None);
    } else {
        assert(turns[0] == before[0]);
        assert(turns.drop_first() =~= before.drop_first() + seq![None] + after);
        lemma_nothing_after_close(before.drop_first(), after);
    }
}

/// Writes reach the wire in the order in which they were queued, each as
/// its payload behind the identifier of its stream.
pub proof fn lemma_writes_reach_wire(writes: Seq<(u128, Seq<u8>)>)
    ensures
        spec_wire(turns_of(writes)).len() == writes.len(),
        forall|k: int|
            0 <= k < writes.len() ==> #[trigger] spec_wire(turns_of(writes))[k] == spec_append_id(
                writes[k].0,
                writes[k].1,
            ),
    decreases writes.len(),
{
    if writes.len() > 0 {
        lemma_writes_reach_wire(writes.drop_first());
        assert(turns_of(writes).drop_first() =~= turns_of(writes.drop_first()));
    }
}

/// From one side's writes to the other side's reads: whatever streams the
/// peer knew at the start, each stream receives exactly the payloads that
/// were written to it, in the order of writing, and nothing of what was
/// written to another stream.
pub proof fn lemma_round_trip(known: Set<u128>, writes: Seq<(u128, Seq<u8>)>, id: u128)
    ensures
        received(spec_run(known, arrivals(spec_wire(turns_of(writes)))), id) == written_to(
            writes,
            id,
        ),
{
    let events = arrivals(spec_wire(turns_of(writes)));
    lemma_per_stream_order(known, events, id);
    lemma_carried_is_written(writes, id);
}

/// Echo: where the peer writes back on each stream what it received on it,
/// in the order of receipt, each stream of this side receives exactly what
/// was written to it, in the order of writing, however the echoes of the
/// streams are interleaved on the wire.
pub proof fn lemma_echo(
    known_far: Set<u128>,
    known_near: Set<u128>,
    writes: Seq<(u128, Seq<u8>)>,
    echoes: Seq<(u128, Seq<u8>)>,
)
    requires
        forall|id: u128| #[trigger]
            written_to(echoes, id) == received(
                spec_run(known_far, arrivals(spec_wire(turns_of(writes)))),
                id,
            ),
    ensures
        forall|id: u128|
            received(spec_run(known_near, arrivals(spec_wire(turns_of(echoes)))), id)
                == #[trigger] written_to(writes, id),
{
    assert forall|id: u128|
        received(spec_run(known_near, arrivals(spec_wire(turns_of(echoes)))), id)
            == #[trigger] written_to(writes, id) by {
        lemma_round_trip(known_far, writes, id);
        lemma_round_trip(known_near, echoes, id);
        assert(written_to(echoes, id) == written_to(writes, id));
    }
}

/// A stream that stands installed is fed by the demultiplexer: a frame for
/// it is delivered, not announced, and the table's entry that the delivery
/// goes to is the producer end of the very queue that the stream's reader
/// drains.
pub proof fn lemma_installed_is_fed(
    table: PoolView,
    id: u128,
    receiver: mpsc::Receiver<Vec<u8>>,
    waiting: Seq<Seq<u8>>,
    payload: Seq<u8>,
)
    requires
        installed(table, id, receiver, waiting),
    ensures
        spec_dispatch(table.dom(), Inbound::Body(spec_append_id(id, payload))) == Routing::Deliver(
            id,
            payload,
        ),
        inbound_feeds(table[id], receiver),
{
    lemma_shift_append(id, payload);
}

proof fn lemma_carried_is_written(writes: Seq<(u128, Seq<u8>)>, id: u128)
    ensures
        carried(arrivals(spec_wire(turns_of(writes))), id) == written_to(writes, id),
    decreases writes.len(),
{
    let events = arrivals(spec_wire(turns_of(writes)));
    lemma_writes_reach_wire(writes);
    if writes.len() > 0 {
        let rest = writes.drop_first();
        lemma_carried_is_written(rest, id);
        lemma_writes_reach_wire(rest);
        assert(events.drop_first() =~= arrivals(spec_wire(turns_of(rest))));
        lemma_shift_append(writes[0].0, writes[0].1);
        assert(events[0] == Inbound::Body(spec_append_id(writes[0].0, writes[0].1)));
    }
}

/// Entering a stream adds its identifier to the streams of the table and
/// takes none away: the table then holds the streams that a run counts as
/// known after the stream's announcement, and every other entry is as it
/// was.
pub proof fn lemma_entered_streams(before: PoolView, after: PoolView, id: u128)
    requires
        entered(before, after, id),
    ensures
        after.dom() == before.dom().insert(id),
        forall|payload: Seq<u8>|
            after.dom() == #[trigger] known_after(before.dom(), Routing::Announce(id, payload)),
        forall|other: u128|
            other != id && before.contains_key(other) ==> #[trigger] after[other] == before[other],
{
    assert forall|other: u128| other != id implies (#[trigger] after.contains_key(other)
        <==> before.contains_key(other)) by {
        assert(after.remove(id).contains_key(other) <==> after.contains_key(other));
        assert(before.remove(id).contains_key(other) <==> before.contains_key(other));
    }
    assert forall|other: u128| other != id && before.contains_key(other) implies #[trigger] after[other]
        == before[other] by {
        assert(after.remove(id)[other] == after[other]);
        assert(before.remove(id)[other] == before[other]);
    }
    assert(after.dom() =~= before.dom().insert(id));
}

/// Once a stream is entered in the table, its frames are routed to it, not
/// announced; once it is removed, its next frame is announced again.
pub proof fn lemma_entry_decides_routing(
    before: PoolView,
    after: PoolView,
    id: u128,
    payload: Seq<u8>,
)
    ensures
        entered(before, after, id) ==> spec_dispatch(
            after.dom(),
            Inbound::Body(spec_append_id(id, payload)),
        ) == Routing::Deliver(id, payload),
        after == before.remove(id) ==> spec_dispatch(
            after.dom(),
            Inbound::Body(spec_append_id(id, payload)),
        ) == Routing::Announce(id, payload),
{
    lemma_shift_append(id, payload);
}

/// Opening streams one after another, under identifiers that differ from
/// one another and from every stream already in the table, leaves a table
/// that holds each of them besides the streams it held: one entry more for
/// each opening.
pub proof fn lemma_opens_add_entries(tables: Seq<PoolView>, ids: Seq<u128>)
    requires
        tables.len() == ids.len() + 1,
        tables[0].dom().finite(),
        forall|k: int| 0 <= k < ids.len() ==> entered(#[trigger] tables[k], tables[k + 1], ids[k]),
        ids.no_duplicates(),
        forall|k: int| 0 <= k < ids.len() ==> !tables[0].contains_key(#[trigger] ids[k]),
    ensures
        tables.last().dom() == tables[0].dom().union(ids.to_set()),
        tables.last().dom().finite(),
        tables.last().dom().len() == tables[0].dom().len() + ids.len(),
    decreases ids.len(),
{
    if ids.len() == 0 {
        assert(ids.to_set() =~= Set::<u128>::empty());
        assert(tables.last().dom() =~= tables[0].dom().union(ids.to_set()));
    } else {
        let n = ids.len() as int;
        let fewer_tables = tables.drop_last();
        let fewer_ids = ids.drop_last();
        assert forall|k: int| 0 <= k < fewer_ids.len() implies entered(
            #[trigger] fewer_tables[k],
            fewer_tables[k + 1],
            fewer_ids[k],
        ) by {
            assert(entered(tables[k], tables[k + 1], ids[k]));
        }
        assert forall|k: int| 0 <= k < fewer_ids.len() implies !fewer_tables[0].contains_key(
            #[trigger] fewer_ids[k],
        ) by {
            assert(fewer_ids[k] == ids[k]);
        }
        lemma_opens_add_entries(fewer_tables, fewer_ids);
        let before = tables[n - 1];
        let after = tables[n];
        let id = ids[n - 1];
        assert(before == fewer_tables.last());
        assert(entered(tables[n - 1], tables[n - 1 + 1], ids[n - 1]));
        lemma_entered_streams(before, after, id);
        assert(!fewer_ids.to_set().contains(id)) by {
            if fewer_ids.to_set().contains(id) {
                let k = choose|k: int| 0 <= k < fewer_ids.len() && fewer_ids[k] == id;
                assert(ids[k] == ids[n - 1]);
            }
        }
        assert(!tables[0].contains_key(ids[n - 1]));
        assert(!before.dom().contains(id));
        assert(ids.to_set() =~= fewer_ids.to_set().insert(id)) by {
            assert forall|x: u128| ids.to_set().contains(x) <==> fewer_ids.to_set().insert(
                id,
            ).contains(x) by {
                if ids.to_set().contains(x) {
                    let k = choose|k: int| 0 <= k < ids.len() && ids[k] == x;
                    if k < n - 1 {
                        assert(fewer_ids[k] == x);
                    }
                }
                if fewer_ids.to_set().contains(x) {
                    let k = choose|k: int| 0 <= k < fewer_ids.len() && fewer_ids[k] == x;
                    assert(ids[k] == x);
                }
                if x == id {
                    assert(ids[n - 1] == x);
                }
            }
        }
        assert(after.dom() =~= tables[0].dom().union(ids.to_set()));
    }
}

} // verus!
