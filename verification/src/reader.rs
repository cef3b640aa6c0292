//! The inbound side of a connection: the routing table from stream
//! identifiers to inbound queues, and what the demultiplexer does with each
//! thing that the frame reader yields.

use crate::codec::{shift_id, spec_shift_id};
use crate::tcp::IoError;
use crate::handles::{
    announce_feeds, announce_queue, announce_slots, announce_waiting, frame_held, frame_to_vec,
    cancel, inbound_feeds, inbound_queue, inbound_slots, inbound_waiting, offer, task_ending,
};
use crate::stream::{NxBoxIo, NxBoxReader, NxBoxWriter};
use crate::writer::NxWriter;
use std::collections::HashMap;
use std::sync::Arc;
use tokio::sync::{mpsc, Mutex};
use tokio::task::JoinHandle;
use vstd::prelude::*;

verus! {

/// Slots of each inbound queue and of the queue that announces new streams.
pub const QUEUE_SLOTS: usize = 32;

/// The routing table: for each known stream, the producer end of its
/// inbound queue. A map, so a stream has at most one entry.
pub type NxPoolHashMap = HashMap<u128, mpsc::Sender<Vec<u8>>>;

/// The routing table as the tasks of a connection share it.
pub type NxPool = Arc<Mutex<NxPoolHashMap>>;

/// The routing table as contracts speak of it.
pub type PoolView = Map<u128, mpsc::Sender<Vec<u8>>>;

/// The table after a stream was entered under `id`: `id` has an entry, and
/// every other stream has the entry it had, or none as before.
pub open spec fn entered(before: PoolView, after: PoolView, id: u128) -> bool {
    after.contains_key(id) && after.remove(id) == before.remove(id)
}

/// A stream as it stands installed: the table's entry for `id` is the
/// producer end of the inbound queue that `receiver` drains, a queue of
/// [`QUEUE_SLOTS`] slots in which exactly `waiting` waits, the oldest first.
pub open spec fn installed(
    table: PoolView,
    id: u128,
    receiver: mpsc::Receiver<Vec<u8>>,
    waiting: Seq<Seq<u8>>,
) -> bool {
    &&& table.contains_key(id)
    &&& inbound_slots(table[id]) == QUEUE_SLOTS
    &&& inbound_feeds(table[id], receiver)
    &&& inbound_waiting(receiver) == waiting
}

/// What the frame reader yielded, as the demultiplexer sees it.
pub enum Inbound {
    /// The transport ended.
    End,
    /// Reading a frame failed.
    Failed,
    /// A frame body.
    Body(Seq<u8>),
}

/// What the demultiplexer does with one thing that the frame reader yielded.
pub enum Routing {
    /// Leave the loop: nothing more will come.
    Stop,
    /// Drop it and read on.
    Skip,
    /// Put the payload on the inbound queue of a known stream.
    Deliver(u128, Seq<u8>),
    /// Announce a stream not seen before, with its first payload.
    Announce(u128, Seq<u8>),
}

/// What the frame reader yielded, with a buffer taken by what it holds.
pub open spec fn inbound_of(frame: Option<Result<bytes::BytesMut, IoError>>) -> Inbound {
    match frame {
        None => Inbound::End,
        Some(Err(_)) => Inbound::Failed,
        Some(Ok(buffer)) => Inbound::Body(frame_held(buffer)),
    }
}

/// The demultiplexer's rule. The end of the transport stops it; a failed
/// read and a body too short for an identifier are dropped; a body for a
/// known stream is delivered; one for an unknown stream is announced.
pub open spec fn spec_dispatch(known: Set<u128>, inbound: Inbound) -> Routing {
    match inbound {
        Inbound::End => Routing::Stop,
        Inbound::Failed => Routing::Skip,
        Inbound::Body(body) => match spec_shift_id(body) {
            None => Routing::Skip,
            Some((id, payload)) => if known.contains(id) {
                Routing::Deliver(id, payload)
            } else {
                Routing::Announce(id, payload)
            },
        },
    }
}

/// The demultiplexer's decision, with what is needed to carry it out.
pub enum NxRoute {
    Stop,
    Skip,
    /// Enqueue `payload` on `sender`, a producer end of the inbound queue
    /// that the table holds for `id`.
    Deliver { id: u128, sender: mpsc::Sender<Vec<u8>>, payload: Vec<u8> },
    /// Send `(id, payload)` to the queue that announces new streams.
    Announce { id: u128, payload: Vec<u8> },
}

impl View for NxRoute {
    type V = Routing;

    open spec fn view(&self) -> Routing {
        match self {
            NxRoute::Stop => Routing::Stop,
            NxRoute::Skip => Routing::Skip,
            NxRoute::Deliver { id, sender, payload } => Routing::Deliver(*id, payload@),
            NxRoute::Announce { id, payload } => Routing::Announce(*id, payload@),
        }
    }
}

/// The inbound side of a connection.
pub struct NxReader {
    pub pool: NxPool,
    pub receiver: JoinHandle<()>,
    pub newidreceiver: mpsc::Receiver<(u128, Vec<u8>)>,
}

impl NxReader {
    /// The inbound side, from the shared routing table, the handle of the
    /// task that runs the demultiplexer on it, and the consumer end of the
    /// queue on which that task announces new streams.
    pub fn new(
        pool: NxPool,
        receiver: JoinHandle<()>,
        newidreceiver: mpsc::Receiver<(u128, Vec<u8>)>,
    ) -> (reader: Self)
        ensures
            reader.pool == pool,
            reader.receiver == receiver,
            reader.newidreceiver == newidreceiver,
    {
        Self { pool, receiver, newidreceiver }
    }

    /// A routing table without entries.
    pub fn empty_pool() -> (pool: NxPoolHashMap)
        ensures
            pool@ == Map::<u128, mpsc::Sender<Vec<u8>>>::empty(),
    {
        HashMap::new()
    }

    /// The queue on which the demultiplexer announces new streams: both
    /// ends of a new, empty queue of [`QUEUE_SLOTS`] slots, so that the
    /// demultiplexer waits once that many announcements have not been taken.
    pub fn rendezvous() -> (ends: (
        mpsc::Sender<(u128, Vec<u8>)>,
        mpsc::Receiver<(u128, Vec<u8>)>,
    ))
        ensures
            announce_slots(ends.0) == QUEUE_SLOTS,
            announce_feeds(ends.0, ends.1),
            announce_waiting(ends.1) == Seq::<(u128, Seq<u8>)>::empty(),
    {
        announce_queue(QUEUE_SLOTS)
    }

    /// One turn of the demultiplexer: decides what to do with what the frame
    /// reader yielded, against the routing table as it stands. When the
    /// transport has ended the table is emptied, so that every stream's
    /// inbound queue loses its producer and its reader sees the end;
    /// otherwise the table is left as it is. The caller holds the table's
    /// lock for the time of this call, and needs it no longer to carry the
    /// decision out.
    pub fn dispatch(pool: &mut NxPoolHashMap, frame: Option<Result<bytes::BytesMut, IoError>>) -> (route:
        NxRoute)
        ensures
            route@ == spec_dispatch(old(pool)@.dom(), inbound_of(frame)),
            route is Stop ==> final(pool)@ == PoolView::empty(),
            !(route is Stop) ==> final(pool)@ == old(pool)@,
            route matches NxRoute::Deliver { id, sender, .. } ==> old(pool)@.contains_key(id)
                && sender == old(pool)@[id],
    {
        let buffer = match frame {
            None => {
                pool.clear();
                return NxRoute::Stop;
            },
            Some(Err(_)) => {
                return NxRoute::Skip;
            },
            Some(Ok(buffer)) => buffer,
        };
        let (id, payload) = match shift_id(frame_to_vec(&buffer)) {
            Ok(parts) => parts,
            Err(_) => {
                return NxRoute::Skip;
            },
        };
        match pool.get(&id) {
            Some(sender) => NxRoute::Deliver { id, sender: sender.clone(), payload },
            None => NxRoute::Announce { id, payload },
        }
    }

    /// Installs an announced stream: a fresh inbound queue of
    /// [`QUEUE_SLOTS`] slots in which `message` waits, and nothing else, is
    /// entered in the table under `id`. Returns the consumer end of that
    /// queue. An earlier entry for `id` is replaced.
    pub fn open_send(pool: &mut NxPoolHashMap, id: u128, message: Vec<u8>) -> (receiver:
        mpsc::Receiver<Vec<u8>>)
        ensures
            entered(old(pool)@, final(pool)@, id),
            installed(final(pool)@, id, receiver, seq![message@]),
    {
        let (sender, mut receiver) = inbound_queue(QUEUE_SLOTS);
        let _ = offer(&sender, &mut receiver, message);
        pool.insert(id, sender);
        assert(pool@.remove(id) =~= old(pool)@.remove(id));
        assert(inbound_waiting(receiver) =~= seq![message@]);
        receiver
    }

    /// Opens a stream from this side: a fresh, empty inbound queue of
    /// [`QUEUE_SLOTS`] slots is entered in the table under `id`. Returns
    /// the consumer end of that queue. An earlier entry for `id` is
    /// replaced.
    pub fn open(pool: &mut NxPoolHashMap, id: u128) -> (receiver: mpsc::Receiver<Vec<u8>>)
        ensures
            entered(old(pool)@, final(pool)@, id),
            installed(final(pool)@, id, receiver, Seq::empty()),
    {
        let (sender, receiver) = inbound_queue(QUEUE_SLOTS);
        pool.insert(id, sender);
        assert(pool@.remove(id) =~= old(pool)@.remove(id));
        receiver
    }

    /// The stream that an announcement stands for, given what the queue of
    /// announcements yielded. `None` once that queue has no producer left,
    /// that is, once the demultiplexer has ended. Otherwise the stream is
    /// installed as by [`NxReader::open_send`]: the announced payload, and
    /// nothing else, waits in the queue that the stream's read half drains
    /// and the table's entry feeds. Its write half feeds the outbound queue
    /// of `writer`.
    pub fn next(
        pool: &mut NxPoolHashMap,
        writer: &NxWriter,
        announced: Option<(u128, Vec<u8>)>,
    ) -> (io: Option<NxBoxIo>)
        ensures
            announced is None ==> io is None && final(pool)@ == old(pool)@,
            announced matches Some((id, first)) ==> {
                &&& io matches Some(stream)
                &&& stream.id == id
                &&& stream.reader.id == id
                &&& stream.writer.id == id
                &&& stream.writer.writechannel == writer.sender
                &&& entered(old(pool)@, final(pool)@, id)
                &&& installed(final(pool)@, id, stream.reader.receiver, seq![first@])
            },
    {
        let (id, message) = match announced {
            Some(pair) => pair,
            None => {
                return None;
            },
        };
        let reader = NxBoxReader::new(id, Self::open_send(pool, id, message));
        let writer = NxBoxWriter::new(id, writer.sender.clone());
        Some(NxBoxIo::new(id, writer, reader))
    }

    /// Forgets a stream: its entry leaves the table, and with it the last
    /// producer end of its inbound queue.
    pub fn close_id(pool: &mut NxPoolHashMap, id: u128)
        ensures
            final(pool)@ == old(pool)@.remove(id),
    {
        pool.remove(&id);
    }

    /// Cancels the demultiplexer task and empties the routing table, so
    /// that every stream's reader sees the end. The task is asked to end
    /// and is not waited for; the rest of the inbound side is left as it
    /// is.
    pub fn close(&mut self, pool: &mut NxPoolHashMap)
        ensures
            task_ending(final(self).receiver),
            final(self).pool == old(self).pool,
            final(self).newidreceiver == old(self).newidreceiver,
            final(pool)@ == PoolView::empty(),
    {
        cancel(&mut self.receiver);
        pool.clear();
    }
}

} // verus!
