//! A connection as its two sides hold it: the client, which opens streams,
//! and the session that a listener accepts, which takes the streams that
//! the peer opened.

use crate::error::NxError;
use crate::handles::random_id;
use crate::reader::{entered, installed, NxPoolHashMap, NxReader};
use crate::stream::{NxBoxIo, NxBoxReader, NxBoxWriter, NxWriteChannel};
use crate::tcp::{IoError, TcpAcceptor};
use crate::writer::NxWriter;
use vstd::prelude::*;

verus! {

/// The accepting side's view of a connection.
pub struct NxSession {
    pub writer: NxWriter,
    pub reader: NxReader,
}

impl NxSession {
    pub fn new(reader: NxReader, writer: NxWriter) -> (session: Self)
        ensures
            session.reader == reader,
            session.writer == writer,
    {
        Self { writer, reader }
    }

    /// The next stream that the peer opened, given the connection's routing
    /// table and what the queue of announcements yielded; `None` once the
    /// demultiplexer has ended. See [`NxReader::next`].
    pub fn next(&self, pool: &mut NxPoolHashMap, announced: Option<(u128, Vec<u8>)>) -> (io: Option<
        NxBoxIo,
    >)
        ensures
            announced is None ==> io is None && final(pool)@ == old(pool)@,
            announced matches Some((id, first)) ==> {
                &&& io matches Some(stream)
                &&& stream.id == id
                &&& stream.reader.id == id
                &&& stream.writer.id == id
                &&& stream.writer.writechannel == self.writer.sender
                &&& entered(old(pool)@, final(pool)@, id)
                &&& installed(final(pool)@, id, stream.reader.receiver, seq![first@])
            },
    {
        NxReader::next(pool, &self.writer, announced)
    }
}

/// The connecting side's view of a connection.
pub struct NxClient {
    pub writer: NxWriter,
    pub reader: NxReader,
}

impl NxClient {
    /// What connecting reports, given what the attempt yielded: the client
    /// over the two sides of the connection, or the transport's failure.
    pub fn new(connected: Result<(NxReader, NxWriter), IoError>) -> (r: Result<Self, NxError>)
        ensures
            connected matches Ok(sides) ==> r matches Ok(client) && client.reader == sides.0
                && client.writer == sides.1,
            connected matches Err(e) ==> r matches Err(NxError::Io(same)) && same == e,
    {
        match connected {
            Ok((reader, writer)) => Ok(Self { writer, reader }),
            Err(e) => Err(NxError::Io(e)),
        }
    }

    /// Opens the stream `id` from this side: the producer end of the
    /// stream's own inbound queue, fresh and empty, enters the routing table
    /// under `id`, and the stream's write half feeds the connection's
    /// outbound queue. Nothing is put on the wire.
    pub fn open_as(&self, pool: &mut NxPoolHashMap, id: u128) -> (io: NxBoxIo)
        ensures
            io.id == id,
            io.reader.id == id,
            io.writer.id == id,
            io.writer.writechannel == self.writer.sender,
            entered(old(pool)@, final(pool)@, id),
            installed(final(pool)@, id, io.reader.receiver, Seq::empty()),
    {
        let reader = NxBoxReader::new(id, NxReader::open(pool, id));
        let writer = NxBoxWriter::new(id, self.writer.sender.clone());
        NxBoxIo::new(id, writer, reader)
    }

    /// Opens a stream under an identifier drawn at random, as
    /// [`NxClient::open_as`] does under a given one. It always succeeds, and
    /// the identifier has the version and variant bits of a random UUID.
    pub fn open(&self, pool: &mut NxPoolHashMap) -> (r: Result<NxBoxIo, NxError>)
        ensures
            r matches Ok(io) && {
                &&& io.id & 0xf000_c000_0000_0000_0000 == 0x4000_8000_0000_0000_0000
                &&& io.reader.id == io.id
                &&& io.writer.id == io.id
                &&& io.writer.writechannel == self.writer.sender
                &&& entered(old(pool)@, final(pool)@, io.id)
                &&& installed(final(pool)@, io.id, io.reader.receiver, Seq::empty())
            },
    {
        let id = random_id();
        Ok(self.open_as(pool, id))
    }

    /// The command that closes the connection's writer.
    pub fn close(&self) -> (command: NxWriteChannel)
        ensures
            command is Close,
    {
        self.writer.close()
    }
}

/// The listening side.
pub struct NxListener {
    pub listener: TcpAcceptor,
}

impl NxListener {
    /// What accepting reports, given what it yielded: the session over the
    /// two sides of the new connection with the peer's address, or the
    /// transport's failure.
    pub fn accept<A>(&self, accepted: Result<(NxReader, NxWriter, A), IoError>) -> (r: Result<
        (NxSession, A),
        NxError,
    >)
        ensures
            accepted matches Ok(parts) ==> r matches Ok(made) && made.0.reader == parts.0
                && made.0.writer == parts.1 && made.1 == parts.2,
            accepted matches Err(e) ==> r matches Err(NxError::Io(same)) && same == e,
    {
        match accepted {
            Ok((reader, writer, addr)) => Ok((NxSession::new(reader, writer), addr)),
            Err(e) => Err(NxError::Io(e)),
        }
    }

    /// What listening reports, given what binding yielded: the listener,
    /// or the transport's failure.
    pub fn listen(bound: Result<TcpAcceptor, IoError>) -> (r: Result<Self, NxError>)
        ensures
            bound matches Ok(acceptor) ==> r matches Ok(made) && made.listener == acceptor,
            bound matches Err(e) ==> r matches Err(NxError::Io(same)) && same == e,
    {
        match bound {
            Ok(listener) => Ok(Self { listener }),
            Err(e) => Err(NxError::Io(e)),
        }
    }
}

/// As [`NxClient::new`].
pub fn connect(connected: Result<(NxReader, NxWriter), IoError>) -> (r: Result<NxClient, NxError>)
    ensures
        connected matches Ok(sides) ==> r matches Ok(client) && client.reader == sides.0
            && client.writer == sides.1,
        connected matches Err(e) ==> r matches Err(NxError::Io(same)) && same == e,
{
    NxClient::new(connected)
}

/// As [`NxListener::listen`].
pub fn listen(bound: Result<TcpAcceptor, IoError>) -> (r: Result<NxListener, NxError>)
    ensures
        bound matches Ok(acceptor) ==> r matches Ok(made) && made.listener == acceptor,
        bound matches Err(e) ==> r matches Err(NxError::Io(same)) && same == e,
{
    NxListener::listen(bound)
}

} // verus!
