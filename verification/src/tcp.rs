//! The frame transport, as far as it computes: how a socket becomes a frame
//! reader and a frame writer, where a listener binds, and what is handed to
//! the frame writer. Binding, connecting, accepting, reading and writing
//! are done by the caller, who hands in what they yielded.

use crate::handles::{
    bytes_held, codec_big_endian, codec_length_adjustment, codec_length_bytes,
    codec_length_offset, codec_max_frame, codec_skipped, frame_reader, frame_writer, into_bytes,
    read_half, reader_buffered, reader_codec, reader_source, write_half, writer_buffered,
    writer_codec, writer_sink,
};
use tokio::net::tcp::{OwnedReadHalf, OwnedWriteHalf};
use tokio::net::TcpStream as TokioTcpStream;
use tokio_util::codec::{FramedRead, FramedWrite, LengthDelimitedCodec};
use vstd::prelude::*;

verus! {

pub type Codec = LengthDelimitedCodec;

pub type IoWrite = FramedWrite<OwnedWriteHalf, Codec>;

pub type IoRead = FramedRead<OwnedReadHalf, Codec>;

/// Bytes of the length that stands before each frame body on the wire.
pub const LENGTH_BYTES: usize = 4;

/// The longest frame body that the transport takes.
pub const MAX_FRAME: usize = 8 * 1024 * 1024;

/// The framing of the transport: each frame is a length of
/// [`LENGTH_BYTES`] bytes, most significant first, and then the body, which
/// is all that the length counts; a frame that was read is yielded as the
/// body alone; a body has at most [`MAX_FRAME`] bytes.
pub open spec fn wire_framing(codec: Codec) -> bool {
    &&& codec_length_bytes(codec) == LENGTH_BYTES
    &&& codec_length_offset(codec) == 0
    &&& codec_length_adjustment(codec) == 0
    &&& codec_skipped(codec) == LENGTH_BYTES
    &&& codec_big_endian(codec)
    &&& codec_max_frame(codec) == MAX_FRAME
}

/// Both ends of the frame transport over one socket, before anything went
/// over it: `reader` reads from the socket's reading half and `writer`
/// writes to its writing half, each with the framing of the transport, and
/// neither holds a byte yet.
pub open spec fn framed_over(stream: TokioTcpStream, reader: TcpReader, writer: TcpWriter) -> bool {
    &&& reader_source(reader.read) == read_half(stream)
    &&& wire_framing(reader_codec(reader.read))
    &&& reader_buffered(reader.read) == Seq::<u8>::empty()
    &&& writer_sink(writer.write) == write_half(stream)
    &&& wire_framing(writer_codec(writer.write))
    &&& writer_buffered(writer.write) == Seq::<u8>::empty()
}

/// A failure of the transport.
pub type IoError = std::io::Error;

/// The frame writer of a connection.
pub struct TcpWriter {
    pub write: IoWrite,
}

impl TcpWriter {
    /// The frame writer over the writing half of a socket, with the
    /// framing of the transport.
    pub fn new(write: OwnedWriteHalf) -> (made: Self)
        ensures
            writer_sink(made.write) == write,
            wire_framing(writer_codec(made.write)),
            writer_buffered(made.write) == Seq::<u8>::empty(),
    {
        let codec = Codec::new();
        Self { write: frame_writer(write, codec) }
    }

    /// The buffer that sending `bytes` hands to the frame writer: it holds
    /// the frame body, byte for byte. The length prefix is the codec's.
    pub fn send(bytes: Vec<u8>) -> (buffer: bytes::Bytes)
        ensures
            bytes_held(buffer) == bytes@,
    {
        into_bytes(bytes)
    }
}

/// The frame reader of a connection.
pub struct TcpReader {
    pub read: IoRead,
}

impl TcpReader {
    /// The frame reader over the reading half of a socket, with the
    /// framing of the transport.
    pub fn new(read: OwnedReadHalf) -> (made: Self)
        ensures
            reader_source(made.read) == read,
            wire_framing(reader_codec(made.read)),
            reader_buffered(made.read) == Seq::<u8>::empty(),
    {
        let codec = Codec::new();
        Self { read: frame_reader(read, codec) }
    }
}

/// Both ends of the frame transport over one connected socket.
fn framed(stream: TokioTcpStream) -> (ends: (TcpReader, TcpWriter))
    ensures
        framed_over(stream, ends.0, ends.1),
{
    let (reader, writer) = stream.into_split();
    (TcpReader::new(reader), TcpWriter::new(writer))
}

/// A listening socket.
pub struct TcpAcceptor {
    pub listener: tokio::net::TcpListener,
}

impl TcpAcceptor {
    pub fn new(listener: tokio::net::TcpListener) -> (made: Self)
        ensures
            made.listener == listener,
    {
        Self { listener }
    }

    /// What accepting reports, given what the socket yielded: the frame
    /// reader and writer over the peer's socket with the peer's address, or
    /// the failure as it came.
    pub fn accept<A>(&self, accepted: Result<(TokioTcpStream, A), IoError>) -> (r: Result<
        (TcpReader, TcpWriter, A),
        IoError,
    >)
        ensures
            accepted matches Ok(pair) ==> r matches Ok(made) && framed_over(pair.0, made.0, made.1)
                && made.2 == pair.1,
            accepted matches Err(e) ==> r matches Err(same) && same == e,
    {
        match accepted {
            Ok((stream, addr)) => {
                let (reader, writer) = framed(stream);
                Ok((reader, writer, addr))
            },
            Err(e) => Err(e),
        }
    }
}

/// Where a listener on `port` binds: the port on every interface, as the
/// four bytes of the address and the port.
pub fn bind_address(port: &u16) -> (address: ([u8; 4], u16))
    ensures
        address.0@ == seq![0u8, 0u8, 0u8, 0u8],
        address.1 == *port,
{
    ([0u8, 0u8, 0u8, 0u8], *port)
}

/// What listening reports, given what binding yielded: the listener, or
/// the failure as it came.
pub fn listen(bound: Result<tokio::net::TcpListener, IoError>) -> (r: Result<TcpAcceptor, IoError>)
    ensures
        bound matches Ok(socket) ==> r matches Ok(made) && made.listener == socket,
        bound matches Err(e) ==> r matches Err(same) && same == e,
{
    match bound {
        Ok(listener) => Ok(TcpAcceptor::new(listener)),
        Err(e) => Err(e),
    }
}

/// What connecting reports, given what the attempt yielded: the frame
/// reader and writer over the socket, or the failure as it came.
pub fn connect(connected: Result<TokioTcpStream, IoError>) -> (r: Result<
    (TcpReader, TcpWriter),
    IoError,
>)
    ensures
        connected matches Ok(stream) ==> r matches Ok(ends) && framed_over(stream, ends.0, ends.1),
        connected matches Err(e) ==> r matches Err(same) && same == e,
{
    match connected {
        Ok(stream) => Ok(framed(stream)),
        Err(e) => Err(e),
    }
}

} // verus!
