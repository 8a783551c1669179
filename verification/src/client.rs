//! The client's side of a connection.
//!
//! A `Client` is what `connect` gives: it owns the three threads of the
//! connection, the reader, the writer and the command loop, and the sending
//! end of the loop's command queue. A `ThinClient` is a further sending end
//! and nothing else. Neither sends anything itself: they say what is to be
//! put into the queue, and in which order a connection is taken down.

use crate::client::rpc::client::CallResult;
use crate::client::rpc_loop::{Command, CommandView};
use crate::error::Error;
use crate::ipc::RpcResultKind;
use vstd::prelude::*;

pub mod io_loop;
pub mod rpc;
pub mod rpc_loop;

verus! {

/// Whoever can issue calls: the command that `call` returns, put into the
/// command queue, issues the call of `function` with `args`, and the result
/// comes to `notify`.
pub trait RpcCaller {
    fn call<N, H>(&mut self, function: &str, args: serde_json::Value, notify: N) -> (command:
        Command<N, H>)
        ensures
            command@ == (CommandView::Call { function: function@, args, notify }),
    ;
}

/// One of the three threads of a connection.
#[derive(Clone, Copy, Debug, PartialEq, Eq, Structural)]
pub enum Worker {
    RpcLoop,
    Writer,
    Reader,
}

/// One thing to do while a connection is taken down.
#[derive(Debug, PartialEq)]
pub enum TeardownStep<J> {
    /// Put `Quit` into the command queue.
    SendQuit,
    /// Wait for the thread to end.
    Join { worker: Worker, thread: J },
    /// Shut both directions of the transport down, which wakes a thread that
    /// is blocked in a read or a write.
    ShutdownTransport,
}

/// The owner of a connection. `S` is the sending end of the command queue,
/// `J` the handle by which a thread is joined.
pub struct Client<S, J> {
    pub rpc_loop_commands: S,
    pub rpc_loop_thread: J,
    pub read_thread: J,
    pub write_thread: J,
}

/// A handle that can issue calls and owns no thread.
pub struct ThinClient<S> {
    pub rpc_loop_commands: S,
}

/// What becomes of a registration once the broker has answered the call
/// that announced the procedure: `None` if the procedure is to be registered
/// with the command loop, else the reason why it is not.
pub open spec fn refusal(announced: CallResult) -> Option<Error> {
    match announced {
        Ok(result) => match result.kind {
            RpcResultKind::Success => None,
            RpcResultKind::Failure(kind) => Some(Error::Rpc(kind)),
        },
        Err(error) => Some(error),
    }
}

/// The order in which a connection is taken down. The command loop goes
/// first: once it has ended, every waiting call has failed and the writer's
/// queue is closed. The transport is shut down before the two threads that
/// may be blocked in it are joined.
pub open spec fn teardown_of<S, J>(client: Client<S, J>) -> Seq<TeardownStep<J>> {
    seq![
        TeardownStep::SendQuit,
        TeardownStep::Join { worker: Worker::RpcLoop, thread: client.rpc_loop_thread },
        TeardownStep::ShutdownTransport,
        TeardownStep::Join { worker: Worker::Writer, thread: client.write_thread },
        TeardownStep::Join { worker: Worker::Reader, thread: client.read_thread },
    ]
}

impl<S, J> Client<S, J> {
    /// The owner of a connection whose threads are running.
    pub fn new(
        rpc_loop_commands: S,
        rpc_loop_thread: J,
        read_thread: J,
        write_thread: J,
    ) -> (client: Self)
        ensures
            client == (Client { rpc_loop_commands, rpc_loop_thread, read_thread, write_thread }),
    {
        Client { rpc_loop_commands, rpc_loop_thread, read_thread, write_thread }
    }

    /// Second half of a registration. `announced` is how the call that
    /// announced the procedure to the broker ended. If it went well, the
    /// command that registers the procedure with the command loop comes
    /// back; if not, the procedure is not registered, and the reason comes
    /// back.
    pub fn new_rpc<N, H>(
        &mut self,
        name: &str,
        rpc: H,
        announced: CallResult,
        notify: N,
    ) -> (command: Result<Command<N, H>, Error>)
        ensures
            *final(self) == *old(self),
            refusal(announced) is None ==> command is Ok && command->Ok_0@ == (CommandView::NewRpc {
                name: name@,
                notify,
            }),
            refusal(announced) is Some ==> command is Err && Some(command->Err_0) == refusal(
                announced,
            ),
    {
        match announced {
            Ok(result) => match result.kind {
                RpcResultKind::Success => Ok(
                    Command::NewRpc { name: name.to_owned(), rpc, notify },
                ),
                RpcResultKind::Failure(kind) => Err(Error::Rpc(kind)),
            },
            Err(error) => Err(error),
        }
    }

    /// Takes the connection down: what is to be done, in this order.
    pub fn shutdown(self) -> (steps: Vec<TeardownStep<J>>)
        ensures
            steps@ == teardown_of(self),
    {
        let mut steps: Vec<TeardownStep<J>> = Vec::new();
        steps.push(TeardownStep::SendQuit);
        steps.push(TeardownStep::Join { worker: Worker::RpcLoop, thread: self.rpc_loop_thread });
        steps.push(TeardownStep::ShutdownTransport);
        steps.push(TeardownStep::Join { worker: Worker::Writer, thread: self.write_thread });
        steps.push(TeardownStep::Join { worker: Worker::Reader, thread: self.read_thread });
        steps
    }
}

impl<S: Clone, J> Client<S, J> {
    /// A handle on this connection that owns no thread.
    pub fn clone(&self) -> (handle: Result<ThinClient<S>, Error>)
        ensures
            handle is Ok,
            cloned(self.rpc_loop_commands, handle->Ok_0.rpc_loop_commands),
    {
        Ok(ThinClient { rpc_loop_commands: self.rpc_loop_commands.clone() })
    }
}

impl<S, J> RpcCaller for Client<S, J> {
    fn call<N, H>(&mut self, function: &str, args: serde_json::Value, notify: N) -> (command:
        Command<N, H>)
        ensures
            *final(self) == *old(self),
    {
        Command::Call { function: function.to_owned(), args, notify }
    }
}

impl<S: Clone> ThinClient<S> {
    /// A handle like this one: it feeds the same command queue.
    pub fn clone(&self) -> (handle: Self)
        ensures
            cloned(self.rpc_loop_commands, handle.rpc_loop_commands),
    {
        ThinClient { rpc_loop_commands: self.rpc_loop_commands.clone() }
    }
}

impl<S> RpcCaller for ThinClient<S> {
    fn call<N, H>(&mut self, function: &str, args: serde_json::Value, notify: N) -> (command:
        Command<N, H>)
        ensures
            *final(self) == *old(self),
    {
        Command::Call { function: function.to_owned(), args, notify }
    }
}

/// Every thread of a connection is joined when the connection is taken
/// down, each once; the command loop is told to quit before anything else,
/// and the transport is shut down before the writer and the reader are
/// joined.
pub proof fn lemma_teardown_joins_every_thread<S, J>(client: Client<S, J>)
    ensures
        teardown_of(client).len() == 5,
        teardown_of(client)[0] == TeardownStep::<J>::SendQuit,
        teardown_of(client)[1] == (TeardownStep::Join {
            worker: Worker::RpcLoop,
            thread: client.rpc_loop_thread,
        }),
        teardown_of(client)[2] == TeardownStep::<J>::ShutdownTransport,
        teardown_of(client)[3] == (TeardownStep::Join {
            worker: Worker::Writer,
            thread: client.write_thread,
        }),
        teardown_of(client)[4] == (TeardownStep::Join {
            worker: Worker::Reader,
            thread: client.read_thread,
        }),
{
}

} // verus!
