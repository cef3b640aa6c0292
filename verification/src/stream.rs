//! One stream of a connection, as its owner holds it: a read half fed by the
//! demultiplexer and a write half that feeds the shared outbound queue.

use crate::codec::{append_id, spec_append_id};
use crate::error::NxError;
use tokio::sync::mpsc;
use vstd::prelude::*;

verus! {

/// A command on the outbound queue of a connection.
pub enum NxWriteChannel {
    /// Put this frame body on the wire.
    Write(Vec<u8>),
    /// Stop writing: the writer task of the connection ends.
    Close,
}

impl NxWriteChannel {
    /// The frame body that the command carries, if it carries one.
    pub open spec fn body(self) -> Option<Seq<u8>> {
        match self {
            NxWriteChannel::Write(body) => Some(body@),
            NxWriteChannel::Close => None,
        }
    }
}

/// The read half of a stream.
pub struct NxBoxReader {
    pub id: u128,
    pub receiver: mpsc::Receiver<Vec<u8>>,
}

impl NxBoxReader {
    pub fn new(id: u128, receiver: mpsc::Receiver<Vec<u8>>) -> (reader: Self)
        ensures
            reader.id == id,
            reader.receiver == receiver,
    {
        Self { id, receiver }
    }

    /// What a read reports, given what the inbound queue yielded: the
    /// payload, or `Closed` once the queue has no producer left.
    pub fn read(&self, received: Option<Vec<u8>>) -> (r: Result<Vec<u8>, NxError>)
        ensures
            match received {
                Some(message) => r == Ok::<Vec<u8>, NxError>(message),
                None => r is Err && r->Err_0 is Closed,
            },
    {
        match received {
            Some(message) => Ok(message),
            None => Err(NxError::Closed),
        }
    }
}

/// What an enqueue on the outbound queue reports: `Closed` when the queue
/// did not take the command, because the writer task is gone.
pub fn enqueued(taken: bool) -> (r: Result<(), NxError>)
    ensures
        taken ==> r is Ok,
        !taken ==> r is Err && r->Err_0 is Closed,
{
    if taken {
        Ok(())
    } else {
        Err(NxError::Closed)
    }
}

/// The write half of a stream.
pub struct NxBoxWriter {
    pub id: u128,
    pub writechannel: mpsc::Sender<NxWriteChannel>,
}

impl NxBoxWriter {
    pub fn new(id: u128, writechannel: mpsc::Sender<NxWriteChannel>) -> (writer: Self)
        ensures
            writer.id == id,
            writer.writechannel == writechannel,
    {
        Self { id, writechannel }
    }

    /// The command that a write of `message` puts on the outbound queue: the
    /// payload behind the identifier of this stream.
    pub fn write(&self, message: Vec<u8>) -> (command: NxWriteChannel)
        ensures
            command.body() == Some(spec_append_id(self.id, message@)),
    {
        NxWriteChannel::Write(append_id(self.id, message))
    }

    /// Gives up the write half: the queue to put the command on, and the
    /// command, which is `Close`.
    pub fn close(self) -> (r: (mpsc::Sender<NxWriteChannel>, NxWriteChannel))
        ensures
            r.0 == self.writechannel,
            r.1 is Close,
    {
        (self.writechannel, NxWriteChannel::Close)
    }
}

/// A stream: both halves, bound to one identifier.
pub struct NxBoxIo {
    pub id: u128,
    pub writer: NxBoxWriter,
    pub reader: NxBoxReader,
}

impl NxBoxIo {
    pub fn new(id: u128, writer: NxBoxWriter, reader: NxBoxReader) -> (io: Self)
        ensures
            io.id == id,
            io.writer == writer,
            io.reader == reader,
    {
        Self { id, writer, reader }
    }

    /// As [`NxBoxReader::read`], on the read half.
    pub fn read(&self, received: Option<Vec<u8>>) -> (r: Result<Vec<u8>, NxError>)
        ensures
            match received {
                Some(message) => r == Ok::<Vec<u8>, NxError>(message),
                None => r is Err && r->Err_0 is Closed,
            },
    {
        self.reader.read(received)
    }

    /// As [`NxBoxWriter::write`], on the write half.
    pub fn write(&self, message: Vec<u8>) -> (command: NxWriteChannel)
        ensures
            command.body() == Some(spec_append_id(self.writer.id, message@)),
    {
        self.writer.write(message)
    }

    /// As [`NxBoxWriter::close`], on the write half; the read half is dropped.
    pub fn close(self) -> (r: (mpsc::Sender<NxWriteChannel>, NxWriteChannel))
        ensures
            r.0 == self.writer.writechannel,
            r.1 is Close,
    {
        self.writer.close()
    }
}

} // verus!
