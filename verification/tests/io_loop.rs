use serde_json::Value;
use switchboard::client::io_loop::{
    reader_next, writer_next, ReaderAction, ReaderEvent, WriterAction, WriterEvent,
};
use switchboard::client::rpc::server::Rpc;
use switchboard::client::rpc_loop::Command;
use switchboard::error::Error;
use switchboard::ipc::{Message, RpcResponse, RpcResult};

struct Never;

impl Rpc for Never {
    fn priority(&self) -> u16 {
        0
    }

    fn call(&mut self, _args: Value) -> RpcResult {
        RpcResult::ok()
    }
}

fn reader(event: ReaderEvent) -> ReaderAction<u8, Never> {
    reader_next(event)
}

#[test]
fn reader_reads_first() {
    assert!(matches!(reader(ReaderEvent::Started), ReaderAction::ReadOne));
}

#[test]
fn reader_forwards_what_it_read() {
    let message = Message::RpcResponse(RpcResponse { context: 3, result: RpcResult::ok() });
    match reader(ReaderEvent::Read(Ok(message.clone()))) {
        ReaderAction::Forward(Command::Received(forwarded)) => assert_eq!(forwarded, message),
        _ => panic!("not forwarded"),
    }
    match reader(ReaderEvent::Read(Ok(Message::Broadcast(Value::from("news"))))) {
        ReaderAction::Forward(Command::Received(forwarded)) => {
            assert_eq!(forwarded, Message::Broadcast(Value::from("news")))
        }
        _ => panic!("not forwarded"),
    }
}

#[test]
fn reader_reads_on_after_forwarding() {
    assert!(matches!(reader(ReaderEvent::Forwarded), ReaderAction::ReadOne));
}

#[test]
fn reader_ends_when_reading_fails() {
    assert!(matches!(reader(ReaderEvent::Read(Err(Error::Disconnected))), ReaderAction::Exit));
    assert!(matches!(reader(ReaderEvent::Read(Err(Error::InvalidFrame))), ReaderAction::Exit));
}

#[test]
fn reader_ends_when_the_command_queue_is_closed() {
    assert!(matches!(reader(ReaderEvent::QueueClosed), ReaderAction::Exit));
}

#[test]
fn writer_writes_what_the_queue_gives() {
    assert_eq!(writer_next(WriterEvent::Started), WriterAction::TakeOne);
    let message = Message::Broadcast(Value::from(1));
    assert_eq!(writer_next(WriterEvent::Took(message.clone())), WriterAction::Write(message));
    assert_eq!(writer_next(WriterEvent::Written), WriterAction::TakeOne);
}

#[test]
fn writer_ends_when_its_queue_is_closed() {
    assert_eq!(writer_next(WriterEvent::QueueClosed), WriterAction::Exit);
}

#[test]
fn writer_ends_when_a_write_fails() {
    assert_eq!(writer_next(WriterEvent::WriteFailed), WriterAction::Exit);
}
