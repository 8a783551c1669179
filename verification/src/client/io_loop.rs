//! The reader and the writer of a connection.
//!
//! Each of the two is a thread that does one thing over and over: the reader
//! takes a message off the wire and hands it to the command loop, the writer
//! takes a message from its queue and puts it on the wire. What the thread
//! does is I/O; what it does next is decided here. Either thread ends without
//! a word when it cannot go on: that it has ended is all that the others need
//! to know.

use crate::client::rpc_loop::{Command, CommandView};
use crate::error::Error;
use crate::ipc::Message;
use vstd::prelude::*;

verus! {

/// What has just happened in the reader.
pub enum ReaderEvent {
    /// The thread has started.
    Started,
    /// A read has ended: with a message, or with the reason why there is
    /// none.
    Read(Result<Message, Error>),
    /// The command queue took the command.
    Forwarded,
    /// The command queue is closed.
    QueueClosed,
}

/// What the reader does next.
pub enum ReaderAction<N, H> {
    /// Read one message from the transport.
    ReadOne,
    /// Put the command into the command queue.
    Forward(Command<N, H>),
    /// End the thread.
    Exit,
}

/// What has just happened in the writer.
pub enum WriterEvent {
    /// The thread has started.
    Started,
    /// The queue gave a message.
    Took(Message),
    /// The queue is closed and empty.
    QueueClosed,
    /// The message is on the wire.
    Written,
    /// The transport did not take the message.
    WriteFailed,
}

/// What the writer does next.
#[derive(Debug, PartialEq)]
pub enum WriterAction {
    /// Wait for the next message in the queue.
    TakeOne,
    /// Put the message on the wire.
    Write(Message),
    /// End the thread.
    Exit,
}

/// The reader's next step. It reads as long as reading works and the
/// command loop listens; every message that it reads goes to the loop as it
/// came.
pub fn reader_next<N, H>(event: ReaderEvent) -> (action: ReaderAction<N, H>)
    ensures
        match event {
            ReaderEvent::Started | ReaderEvent::Forwarded => action is ReadOne,
            ReaderEvent::Read(Ok(message)) => action is Forward && action->Forward_0@
                == CommandView::<N>::Received(message@),
            ReaderEvent::Read(Err(_)) | ReaderEvent::QueueClosed => action is Exit,
        },
{
    match event {
        ReaderEvent::Started | ReaderEvent::Forwarded => ReaderAction::ReadOne,
        ReaderEvent::Read(Ok(message)) => ReaderAction::Forward(Command::Received(message)),
        ReaderEvent::Read(Err(_)) | ReaderEvent::QueueClosed => ReaderAction::Exit,
    }
}

/// The writer's next step. It writes the messages in the order in which the
/// queue gives them, until the queue is closed and empty or a write fails.
pub fn writer_next(event: WriterEvent) -> (action: WriterAction)
    ensures
        match event {
            WriterEvent::Started | WriterEvent::Written => action is TakeOne,
            WriterEvent::Took(message) => action == WriterAction::Write(message),
            WriterEvent::QueueClosed | WriterEvent::WriteFailed => action is Exit,
        },
{
    match event {
        WriterEvent::Started | WriterEvent::Written => WriterAction::TakeOne,
        WriterEvent::Took(message) => WriterAction::Write(message),
        WriterEvent::QueueClosed | WriterEvent::WriteFailed => WriterAction::Exit,
    }
}

} // verus!
