//! The runtime's queues and tasks, and the byte buffers of the frame
//! transport, as far as the multiplexing layer touches them. Nothing in this
//! file is proved: each item states what the layer takes for granted.

use vstd::prelude::*;

verus! {

/// `tokio::sync::mpsc::Sender`: the producer end of a bounded queue. Opaque.
#[verifier::external_type_specification]
#[verifier::external_body]
#[verifier::reject_recursive_types(T)]
pub struct ExSender<T>(tokio::sync::mpsc::Sender<T>);

/// `tokio::sync::mpsc::Receiver`: the consumer end of a bounded queue. Opaque.
#[verifier::external_type_specification]
#[verifier::external_body]
#[verifier::reject_recursive_types(T)]
pub struct ExReceiver<T>(tokio::sync::mpsc::Receiver<T>);

/// `tokio::task::JoinHandle`: the owner's handle on a spawned task. Opaque.
#[verifier::external_type_specification]
#[verifier::external_body]
#[verifier::reject_recursive_types(T)]
pub struct ExJoinHandle<T>(tokio::task::JoinHandle<T>);

/// `tokio::task::JoinError`: what awaiting a cancelled or panicked task
/// yields. Opaque; named here because the handle's type refers to it.
#[verifier::external_type_specification]
#[verifier::external_body]
pub struct ExJoinError(tokio::task::JoinError);

/// `tokio::sync::Mutex`: mutual exclusion that is taken by awaiting. Opaque.
#[verifier::external_type_specification]
#[verifier::external_body]
#[verifier::reject_recursive_types(T)]
pub struct ExMutex<T: ?Sized>(tokio::sync::Mutex<T>);

/// `bytes::Bytes`: an immutable byte buffer, as the frame writer takes it.
#[verifier::external_type_specification]
#[verifier::external_body]
pub struct ExBytes(bytes::Bytes);

/// `bytes::BytesMut`: a byte buffer, as the frame reader yields it.
#[verifier::external_type_specification]
#[verifier::external_body]
pub struct ExBytesMut(bytes::BytesMut);

/// `std::io::Error`: a transport failure as the operating system or the
/// runtime reported it. Opaque.
#[verifier::external_type_specification]
#[verifier::external_body]
pub struct ExIoError(std::io::Error);

/// `tokio::net::TcpStream`: a connected socket. Opaque.
#[verifier::external_type_specification]
#[verifier::external_body]
pub struct ExTcpStream(tokio::net::TcpStream);

/// `tokio::net::TcpListener`: a bound, listening socket. Opaque.
#[verifier::external_type_specification]
#[verifier::external_body]
pub struct ExTcpListener(tokio::net::TcpListener);

/// `tokio::net::tcp::OwnedReadHalf`: the reading half of a socket. Opaque.
#[verifier::external_type_specification]
#[verifier::external_body]
pub struct ExOwnedReadHalf(tokio::net::tcp::OwnedReadHalf);

/// `tokio::net::tcp::OwnedWriteHalf`: the writing half of a socket. Opaque.
#[verifier::external_type_specification]
#[verifier::external_body]
pub struct ExOwnedWriteHalf(tokio::net::tcp::OwnedWriteHalf);

/// `tokio_util::codec::LengthDelimitedCodec`: frames as a length prefix and
/// a body. Opaque.
#[verifier::external_type_specification]
#[verifier::external_body]
pub struct ExLengthDelimitedCodec(tokio_util::codec::LengthDelimitedCodec);

/// `tokio_util::codec::FramedRead`: a byte source read frame by frame. Opaque.
#[verifier::external_type_specification]
#[verifier::external_body]
#[verifier::reject_recursive_types(T)]
#[verifier::reject_recursive_types(D)]
pub struct ExFramedRead<T, D>(tokio_util::codec::FramedRead<T, D>);

/// `tokio_util::codec::FramedWrite`: a byte sink written frame by frame.
/// Opaque.
#[verifier::external_type_specification]
#[verifier::external_body]
#[verifier::reject_recursive_types(T)]
#[verifier::reject_recursive_types(E)]
pub struct ExFramedWrite<T, E>(tokio_util::codec::FramedWrite<T, E>);

/// The number of slots that the inbound queue behind a producer end was
/// made with: the bound on the payloads that wait in it.
pub uninterp spec fn inbound_slots(sender: tokio::sync::mpsc::Sender<Vec<u8>>) -> nat;

/// Whether `receiver` is the consumer end of the inbound queue that
/// `sender` feeds.
pub uninterp spec fn inbound_feeds(
    sender: tokio::sync::mpsc::Sender<Vec<u8>>,
    receiver: tokio::sync::mpsc::Receiver<Vec<u8>>,
) -> bool;

/// The payloads that wait in the inbound queue behind a consumer end, the
/// oldest first, as they stood when the end was last handed on.
pub uninterp spec fn inbound_waiting(receiver: tokio::sync::mpsc::Receiver<Vec<u8>>) -> Seq<
    Seq<u8>,
>;

/// The payloads that the inbound queue behind a consumer end still takes
/// without waiting: its free slots while the end is open, none once it is
/// closed.
pub uninterp spec fn inbound_free(receiver: tokio::sync::mpsc::Receiver<Vec<u8>>) -> nat;

/// The number of slots that the queue of announcements behind a producer
/// end was made with.
pub uninterp spec fn announce_slots(sender: tokio::sync::mpsc::Sender<(u128, Vec<u8>)>) -> nat;

/// Whether `receiver` is the consumer end of the queue of announcements
/// that `sender` feeds.
pub uninterp spec fn announce_feeds(
    sender: tokio::sync::mpsc::Sender<(u128, Vec<u8>)>,
    receiver: tokio::sync::mpsc::Receiver<(u128, Vec<u8>)>,
) -> bool;

/// The announcements that wait behind a consumer end, the oldest first,
/// each a stream and its first payload.
pub uninterp spec fn announce_waiting(
    receiver: tokio::sync::mpsc::Receiver<(u128, Vec<u8>)>,
) -> Seq<(u128, Seq<u8>)>;

/// The number of slots that the outbound queue behind a producer end was
/// made with.
pub uninterp spec fn command_slots(
    sender: tokio::sync::mpsc::Sender<crate::stream::NxWriteChannel>,
) -> nat;

/// Whether `receiver` is the consumer end of the outbound queue that
/// `sender` feeds.
pub uninterp spec fn command_feeds(
    sender: tokio::sync::mpsc::Sender<crate::stream::NxWriteChannel>,
    receiver: tokio::sync::mpsc::Receiver<crate::stream::NxWriteChannel>,
) -> bool;

/// The commands that wait behind a consumer end, the oldest first: the
/// frame body of a write, `None` for a close.
pub uninterp spec fn command_waiting(
    receiver: tokio::sync::mpsc::Receiver<crate::stream::NxWriteChannel>,
) -> Seq<Option<Seq<u8>>>;

/// Whether the task behind a handle has ended or is marked as cancelled,
/// to end when it next stops running.
pub uninterp spec fn task_ending(handle: tokio::task::JoinHandle<()>) -> bool;

/// The number of bytes of the length that the codec puts before each frame
/// body.
pub uninterp spec fn codec_length_bytes(codec: tokio_util::codec::LengthDelimitedCodec) -> nat;

/// The number of bytes that stand before the length in a frame's head.
pub uninterp spec fn codec_length_offset(codec: tokio_util::codec::LengthDelimitedCodec) -> nat;

/// What the codec adds to the length it reads to get the length of the
/// body.
pub uninterp spec fn codec_length_adjustment(codec: tokio_util::codec::LengthDelimitedCodec) -> int;

/// The number of bytes that the codec drops from the front of a frame it
/// has read before it yields the body.
pub uninterp spec fn codec_skipped(codec: tokio_util::codec::LengthDelimitedCodec) -> nat;

/// Whether the codec writes and reads the length most significant byte
/// first.
pub uninterp spec fn codec_big_endian(codec: tokio_util::codec::LengthDelimitedCodec) -> bool;

/// The length of the longest frame body that the codec takes, what
/// `max_frame_length` reports.
pub uninterp spec fn codec_max_frame(codec: tokio_util::codec::LengthDelimitedCodec) -> nat;

/// The reading half of a socket, as `into_split` gives it.
pub uninterp spec fn read_half(stream: tokio::net::TcpStream) -> tokio::net::tcp::OwnedReadHalf;

/// The writing half of a socket, as `into_split` gives it.
pub uninterp spec fn write_half(stream: tokio::net::TcpStream) -> tokio::net::tcp::OwnedWriteHalf;

/// The byte source that a frame reader reads from, what `get_ref` gives.
pub uninterp spec fn reader_source(
    framed: tokio_util::codec::FramedRead<
        tokio::net::tcp::OwnedReadHalf,
        tokio_util::codec::LengthDelimitedCodec,
    >,
) -> tokio::net::tcp::OwnedReadHalf;

/// The codec that a frame reader decodes with, what `decoder` gives.
pub uninterp spec fn reader_codec(
    framed: tokio_util::codec::FramedRead<
        tokio::net::tcp::OwnedReadHalf,
        tokio_util::codec::LengthDelimitedCodec,
    >,
) -> tokio_util::codec::LengthDelimitedCodec;

/// The bytes that a frame reader has read from its source and not yet
/// yielded as frames, what `read_buffer` holds.
pub uninterp spec fn reader_buffered(
    framed: tokio_util::codec::FramedRead<
        tokio::net::tcp::OwnedReadHalf,
        tokio_util::codec::LengthDelimitedCodec,
    >,
) -> Seq<u8>;

/// The bytes that a frame writer has encoded and not yet written to its
/// sink, what `write_buffer` holds.
pub uninterp spec fn writer_buffered(
    framed: tokio_util::codec::FramedWrite<
        tokio::net::tcp::OwnedWriteHalf,
        tokio_util::codec::LengthDelimitedCodec,
    >,
) -> Seq<u8>;

/// The byte sink that a frame writer writes to, what `get_ref` gives.
pub uninterp spec fn writer_sink(
    framed: tokio_util::codec::FramedWrite<
        tokio::net::tcp::OwnedWriteHalf,
        tokio_util::codec::LengthDelimitedCodec,
    >,
) -> tokio::net::tcp::OwnedWriteHalf;

/// The codec that a frame writer encodes with, what `encoder` gives.
pub uninterp spec fn writer_codec(
    framed: tokio_util::codec::FramedWrite<
        tokio::net::tcp::OwnedWriteHalf,
        tokio_util::codec::LengthDelimitedCodec,
    >,
) -> tokio_util::codec::LengthDelimitedCodec;

/// The bytes that an outbound buffer holds, in order.
pub uninterp spec fn bytes_held(buffer: bytes::Bytes) -> Seq<u8>;

/// The bytes that an inbound buffer holds, in order.
pub uninterp spec fn frame_held(buffer: bytes::BytesMut) -> Seq<u8>;

/// `tokio::sync::mpsc::channel`, for the inbound queue of a stream: a new
/// bounded queue and its two ends, which belong together. The queue has the
/// slots that were asked for, which is what `max_capacity` reports of it
/// from then on; nothing waits in it, all its slots are free and its
/// consumer end is open. The call panics on a capacity of zero or above a
/// limit of the runtime (the largest `usize` shifted right by three); both
/// are left out here.
#[verifier::external_body]
pub(crate) fn inbound_queue(slots: usize) -> (ends: (
    tokio::sync::mpsc::Sender<Vec<u8>>,
    tokio::sync::mpsc::Receiver<Vec<u8>>,
))
    requires
        0 < slots <= 0x1fff_ffff,
    ensures
        inbound_slots(ends.0) == slots,
        inbound_feeds(ends.0, ends.1),
        inbound_waiting(ends.1) == Seq::<Seq<u8>>::empty(),
        inbound_free(ends.1) == slots,
{
    tokio::sync::mpsc::channel(slots)
}

/// `tokio::sync::mpsc::channel`, for the queue that announces new streams;
/// as [`inbound_queue`].
#[verifier::external_body]
pub(crate) fn announce_queue(slots: usize) -> (ends: (
    tokio::sync::mpsc::Sender<(u128, Vec<u8>)>,
    tokio::sync::mpsc::Receiver<(u128, Vec<u8>)>,
))
    requires
        0 < slots <= 0x1fff_ffff,
    ensures
        announce_slots(ends.0) == slots,
        announce_feeds(ends.0, ends.1),
        announce_waiting(ends.1) == Seq::<(u128, Seq<u8>)>::empty(),
{
    tokio::sync::mpsc::channel(slots)
}

/// `tokio::sync::mpsc::channel`, for the outbound queue of a connection; as
/// [`inbound_queue`].
#[verifier::external_body]
pub(crate) fn command_queue(slots: usize) -> (ends: (
    tokio::sync::mpsc::Sender<crate::stream::NxWriteChannel>,
    tokio::sync::mpsc::Receiver<crate::stream::NxWriteChannel>,
))
    requires
        0 < slots <= 0x1fff_ffff,
    ensures
        command_slots(ends.0) == slots,
        command_feeds(ends.0, ends.1),
        command_waiting(ends.1) == Seq::<Option<Seq<u8>>>::empty(),
{
    tokio::sync::mpsc::channel(slots)
}

/// `Sender::clone`: one more producer end of the same queue. Contracts know
/// a producer end only by the queue that it feeds, so they take the two for
/// equal.
pub assume_specification<T>[ <tokio::sync::mpsc::Sender<T> as Clone>::clone ](
    sender: &tokio::sync::mpsc::Sender<T>,
) -> (other: tokio::sync::mpsc::Sender<T>)
    ensures
        other == *sender,
;

/// `JoinHandle::abort`: asks the runtime to cancel the task. It returns at
/// once: the task has then ended already, or it is marked as cancelled and
/// ends when it next stops running. The call goes through a shared
/// reference; the handle is taken by `&mut` because contracts tell by it
/// that the task was asked to end.
#[verifier::external_body]
pub(crate) fn cancel(handle: &mut tokio::task::JoinHandle<()>)
    ensures
        task_ending(*final(handle)),
{
    handle.abort()
}

/// `TcpStream::into_split`: the two halves of a connected socket.
pub assume_specification[ tokio::net::TcpStream::into_split ](
    stream: tokio::net::TcpStream,
) -> (halves: (tokio::net::tcp::OwnedReadHalf, tokio::net::tcp::OwnedWriteHalf))
    ensures
        halves.0 == read_half(stream),
        halves.1 == write_half(stream),
;

/// `LengthDelimitedCodec::new`: the codec with the settings that its
/// builder starts from. The length stands first in a frame, in four bytes,
/// most significant first, and counts the body alone; a frame that was read
/// is yielded without those four bytes; bodies of up to eight times 1024
/// times 1024 bytes are taken.
pub assume_specification[ tokio_util::codec::LengthDelimitedCodec::new ]() -> (codec:
    tokio_util::codec::LengthDelimitedCodec)
    ensures
        codec_length_bytes(codec) == 4,
        codec_length_offset(codec) == 0,
        codec_length_adjustment(codec) == 0,
        codec_skipped(codec) == 4,
        codec_big_endian(codec),
        codec_max_frame(codec) == 8 * 1024 * 1024,
;

/// `FramedRead::new`, over the reading half of a socket: a frame reader
/// that reads from `half` and decodes with `codec`, and has read nothing
/// yet.
#[verifier::external_body]
pub(crate) fn frame_reader(
    half: tokio::net::tcp::OwnedReadHalf,
    codec: tokio_util::codec::LengthDelimitedCodec,
) -> (framed: tokio_util::codec::FramedRead<
    tokio::net::tcp::OwnedReadHalf,
    tokio_util::codec::LengthDelimitedCodec,
>)
    ensures
        reader_source(framed) == half,
        reader_codec(framed) == codec,
        reader_buffered(framed) == Seq::<u8>::empty(),
{
    tokio_util::codec::FramedRead::new(half, codec)
}

/// `FramedWrite::new`, over the writing half of a socket: a frame writer
/// that writes to `half` and encodes with `codec`, and holds nothing to
/// write yet.
#[verifier::external_body]
pub(crate) fn frame_writer(
    half: tokio::net::tcp::OwnedWriteHalf,
    codec: tokio_util::codec::LengthDelimitedCodec,
) -> (framed: tokio_util::codec::FramedWrite<
    tokio::net::tcp::OwnedWriteHalf,
    tokio_util::codec::LengthDelimitedCodec,
>)
    ensures
        writer_sink(framed) == half,
        writer_codec(framed) == codec,
        writer_buffered(framed) == Seq::<u8>::empty(),
{
    tokio_util::codec::FramedWrite::new(half, codec)
}

/// `Sender::try_send`: puts a message on the queue without waiting. The
/// queue takes it exactly when a slot is free and the consumer end is open;
/// it then waits behind all that waited before, and one slot less is free.
/// Otherwise the message is dropped and the queue stays as it was. The call
/// goes through the producer end alone: the consumer end is taken along
/// because contracts tell by it what waits in the queue, and this holds of
/// a queue that nothing else is putting into meanwhile.
#[verifier::external_body]
#[allow(unused_variables)]
pub(crate) fn offer(
    sender: &tokio::sync::mpsc::Sender<Vec<u8>>,
    receiver: &mut tokio::sync::mpsc::Receiver<Vec<u8>>,
    message: Vec<u8>,
) -> (taken: bool)
    requires
        inbound_feeds(*sender, *old(receiver)),
    ensures
        taken == (inbound_free(*old(receiver)) > 0),
        inbound_feeds(*sender, *final(receiver)),
        taken ==> inbound_waiting(*final(receiver)) == inbound_waiting(*old(receiver)).push(
            message@,
        ) && inbound_free(*final(receiver)) == inbound_free(*old(receiver)) - 1,
        !taken ==> inbound_waiting(*final(receiver)) == inbound_waiting(*old(receiver))
            && inbound_free(*final(receiver)) == inbound_free(*old(receiver)),
{
    sender.try_send(message).is_ok()
}

/// `Uuid::new_v4` and `Uuid::as_u128`: a random identifier. Whatever the
/// random source gave, the version and variant bits are those of a random
/// UUID.
#[verifier::external_body]
pub(crate) fn random_id() -> (id: u128)
    ensures
        id & 0xf000_c000_0000_0000_0000 == 0x4000_8000_0000_0000_0000,
{
    uuid::Uuid::new_v4().as_u128()
}

/// `format!` over the `Display` of `std::io::Error`: the transport's own
/// description of a failure, which differs from one system to the next.
#[verifier::external_body]
pub(crate) fn failure_text(failure: &std::io::Error) -> (text: String) {
    format!("{}", failure)
}

/// `Bytes::from(Vec<u8>)`: the buffer holds the bytes of the vector, in order.
#[verifier::external_body]
pub(crate) fn into_bytes(body: Vec<u8>) -> (buffer: bytes::Bytes)
    ensures
        bytes_held(buffer) == body@,
{
    bytes::Bytes::from(body)
}

/// `to_vec` on the slice that a `BytesMut` dereferences to: a vector of the
/// bytes that the buffer holds, in order.
#[verifier::external_body]
pub(crate) fn frame_to_vec(buffer: &bytes::BytesMut) -> (body: Vec<u8>)
    ensures
        body@ == frame_held(*buffer),
{
    buffer.to_vec()
}

} // verus!
