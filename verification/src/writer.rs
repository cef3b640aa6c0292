//! The outbound side of a connection: one queue of commands that every
//! stream feeds, and what the writer task does with each command.

use crate::tcp::IoError;
use crate::handles::{command_feeds, command_queue, command_slots, command_waiting};
use crate::stream::NxWriteChannel;
use tokio::sync::mpsc;
use tokio::task::JoinHandle;
use vstd::prelude::*;

verus! {

/// Slots of the outbound queue.
pub const COMMAND_SLOTS: usize = 32;

/// What the writer task does with one thing that its queue yielded: the
/// frame body to put on the wire, or `None` to end. A `Write` is forwarded;
/// a `Close`, and a queue with no producer left, end the task.
pub open spec fn spec_forward(command: Option<NxWriteChannel>) -> Option<Seq<u8>> {
    match command {
        Some(command) => command.body(),
        None => None,
    }
}

/// The outbound side of a connection.
pub struct NxWriter {
    pub receiver: JoinHandle<()>,
    pub sender: mpsc::Sender<NxWriteChannel>,
}

impl NxWriter {
    /// The outbound side, from the handle of the task that drains the
    /// outbound queue and a producer end of that queue.
    pub fn new(receiver: JoinHandle<()>, sender: mpsc::Sender<NxWriteChannel>) -> (writer: Self)
        ensures
            writer.receiver == receiver,
            writer.sender == sender,
    {
        Self { sender, receiver }
    }

    /// The outbound queue of a connection: both ends of a new, empty queue
    /// of [`COMMAND_SLOTS`] slots, so that a stream's write waits once that
    /// many commands have not been taken by the writer task.
    pub fn queue() -> (ends: (mpsc::Sender<NxWriteChannel>, mpsc::Receiver<NxWriteChannel>))
        ensures
            command_slots(ends.0) == COMMAND_SLOTS,
            command_feeds(ends.0, ends.1),
            command_waiting(ends.1) == Seq::<Option<Seq<u8>>>::empty(),
    {
        command_queue(COMMAND_SLOTS)
    }

    /// One turn of the writer task: the frame body to send, or `None` when
    /// the task is to end.
    pub fn forward(command: Option<NxWriteChannel>) -> (frame: Option<Vec<u8>>)
        ensures
            match spec_forward(command) {
                Some(body) => frame is Some && frame->Some_0@ == body,
                None => frame is None,
            },
    {
        match command {
            Some(NxWriteChannel::Write(message)) => Some(message),
            Some(NxWriteChannel::Close) => None,
            None => None,
        }
    }

    /// Whether the writer task goes on after the frame writer reported
    /// `outcome`: it ends on the first failure.
    pub fn proceed(outcome: &Result<(), IoError>) -> (on: bool)
        ensures
            on == (*outcome is Ok),
    {
        outcome.is_ok()
    }

    /// The command that closes the connection's writer.
    pub fn close(&self) -> (command: NxWriteChannel)
        ensures
            command is Close,
    {
        NxWriteChannel::Close
    }
}

} // verus!
