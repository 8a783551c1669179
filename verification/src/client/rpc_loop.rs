//! The command loop: the one owner of a connection's bookkeeping.
//!
//! Every change to the pending calls, to the registered procedures and to
//! the call counter is a command, and the loop takes the commands one at a
//! time, in the order in which they arrive. Taking a command changes the state
//! and yields effects, which the caller carries out in order: messages for
//! the writer, results for waiting callers, broadcasts for the inbox.

use crate::client::rpc::server::Rpc;
use crate::error::{Error, RpcErrorKind};
use crate::ipc::{Message, MessageView, RpcCall, RpcResult, RpcResultKind};
use vstd::prelude::*;

verus! {

/// A call that waits for its response. `notify` is the way to wake the
/// caller.
#[derive(Debug, PartialEq)]
pub struct PendingCall<N> {
    pub id: u64,
    pub notify: N,
}

/// What the loop is asked to do.
pub enum Command<N, H> {
    /// Call the remote procedure `function`, and hand the result to `notify`.
    Call { function: String, args: serde_json::Value, notify: N },
    /// The reader took this message off the wire.
    Received(Message),
    /// Offer `rpc` to the peers as `name`, and tell `notify` how it went.
    NewRpc { name: String, rpc: H, notify: N },
    /// Shut the loop down.
    Quit,
}

/// A command as contracts see it. The procedure of `NewRpc` is left out:
/// nothing that the loop does depends on what is inside it.
pub enum CommandView<N> {
    Call { function: Seq<char>, args: serde_json::Value, notify: N },
    Received(MessageView),
    NewRpc { name: Seq<char>, notify: N },
    Quit,
}

impl<N, H> View for Command<N, H> {
    type V = CommandView<N>;

    open spec fn view(&self) -> CommandView<N> {
        match *self {
            Command::Call { function, args, notify } => CommandView::Call {
                function: function@,
                args,
                notify,
            },
            Command::Received(message) => CommandView::Received(message@),
            Command::NewRpc { name, rpc, notify } => CommandView::NewRpc { name: name@, notify },
            Command::Quit => CommandView::Quit,
        }
    }
}

/// What the caller of the loop has to do after a command.
#[derive(Debug, PartialEq)]
pub enum Effect<N> {
    /// Put the message into the writer's queue.
    Send(Message),
    /// Hand the result of a call to the caller that waits for it.
    Resolve { notify: N, result: Result<RpcResult, Error> },
    /// Tell the one who asked whether the procedure was registered.
    Registered { notify: N, outcome: Result<(), Error> },
    /// Put the payload into the inbox of broadcasts.
    Deliver(serde_json::Value),
    /// Close the writer's queue: nothing will be sent any more.
    CloseOutbound,
}

/// An effect as contracts see it.
pub enum EffectView<N> {
    Send(MessageView),
    Resolve { notify: N, result: Result<RpcResult, Error> },
    Registered { notify: N, outcome: Result<(), Error> },
    Deliver(serde_json::Value),
    CloseOutbound,
}

impl<N> View for Effect<N> {
    type V = EffectView<N>;

    open spec fn view(&self) -> EffectView<N> {
        match *self {
            Effect::Send(message) => EffectView::Send(message@),
            Effect::Resolve { notify, result } => EffectView::Resolve { notify, result },
            Effect::Registered { notify, outcome } => EffectView::Registered { notify, outcome },
            Effect::Deliver(payload) => EffectView::Deliver(payload),
            Effect::CloseOutbound => EffectView::CloseOutbound,
        }
    }
}

/// The views of a run of effects, in order.
pub open spec fn views<N>(effects: Seq<Effect<N>>) -> Seq<EffectView<N>> {
    Seq::new(effects.len(), |i: int| effects[i]@)
}

/// The loop's bookkeeping.
pub struct LoopState<N> {
    /// Cleared by `Quit`, for good.
    pub running: bool,
    /// The identifier that the next call gets.
    pub next_id: u64,
    /// The calls that wait for a response, oldest first.
    pub pending: Seq<PendingCall<N>>,
    /// The names of the registered procedures, oldest first.
    pub procedures: Seq<Seq<char>>,
}

/// A step of the loop: the state it leads to, and what is to be done.
pub struct Transition<N> {
    pub next: LoopState<N>,
    pub effects: Seq<EffectView<N>>,
}

/// The effect that fails the waiting call `call`, because the connection is
/// closed.
pub open spec fn abandon<N>(call: PendingCall<N>) -> EffectView<N> {
    EffectView::Resolve { notify: call.notify, result: Err(Error::Disconnected) }
}

/// The answer to a call of a name that no procedure is registered under.
pub open spec fn unknown_rpc() -> RpcResult {
    RpcResult { kind: RpcResultKind::Failure(RpcErrorKind::UnknownRpc), payload: None }
}

impl<N> LoopState<N> {
    /// The state of a new connection.
    pub open spec fn initial() -> Self {
        LoopState { running: true, next_id: 0, pending: Seq::empty(), procedures: Seq::empty() }
    }

    /// What holds of every state that the loop reaches: identifiers grow
    /// along the pending calls and lie below the counter, so no two calls
    /// share one and none is used again; no name is registered twice; and a
    /// loop that has shut down has no call left waiting.
    pub open spec fn valid(self) -> bool {
        &&& forall|i: int, j: int|
            #![trigger self.pending[i], self.pending[j]]
            0 <= i < j < self.pending.len() ==> self.pending[i].id < self.pending[j].id
        &&& forall|i: int|
            #![trigger self.pending[i]]
            0 <= i < self.pending.len() ==> self.pending[i].id < self.next_id
        &&& forall|i: int, j: int|
            #![trigger self.procedures[i], self.procedures[j]]
            0 <= i < j < self.procedures.len() ==> self.procedures[i] != self.procedures[j]
        &&& !self.running ==> self.pending.len() == 0
    }

    /// Whether the call `id` waits for its response.
    pub open spec fn is_pending(self, id: u64) -> bool {
        exists|i: int| 0 <= i < self.pending.len() && #[trigger] self.pending[i].id == id
    }

    /// Where the call `id` stands among the pending calls.
    pub open spec fn position(self, id: u64) -> int
        recommends
            self.is_pending(id),
    {
        choose|i: int| 0 <= i < self.pending.len() && #[trigger] self.pending[i].id == id
    }

    /// The state in which the call at `at` waits no longer.
    pub open spec fn without(self, at: int) -> Self {
        LoopState { pending: self.pending.remove(at), ..self }
    }

    /// Whether a procedure is registered as `name`.
    pub open spec fn offers(self, name: Seq<char>) -> bool {
        self.procedures.contains(name)
    }

    /// A running loop issues a call: the call gets the next identifier and
    /// waits, and the request goes to the writer. Once the identifiers have
    /// run out, the call fails at once.
    pub open spec fn issue(self, function: Seq<char>, args: serde_json::Value, notify: N)
        -> Transition<N> {
        if self.next_id == u64::MAX {
            Transition {
                next: self,
                effects: seq![
                    EffectView::Resolve { notify, result: Err(Error::OutOfCallIds) },
                ],
            }
        } else {
            Transition {
                next: LoopState {
                    next_id: (self.next_id + 1) as u64,
                    pending: self.pending.push(PendingCall { id: self.next_id, notify }),
                    ..self
                },
                effects: seq![
                    EffectView::Send(
                        MessageView::RpcCall { function, context: self.next_id, args },
                    ),
                ],
            }
        }
    }

    /// A running loop takes a message off the wire. A response goes to the
    /// call that it names, if that call is waiting, and is dropped if it is
    /// not. A call of a registered procedure is answered with `answer`, what
    /// the procedure returned; a call of any other name with an error. A
    /// broadcast goes to the inbox.
    pub open spec fn receive(self, message: MessageView, answer: RpcResult) -> Transition<N> {
        match message {
            MessageView::RpcResponse { context, result } => {
                if self.is_pending(context) {
                    let at = self.position(context);
                    Transition {
                        next: self.without(at),
                        effects: seq![
                            EffectView::Resolve {
                                notify: self.pending[at].notify,
                                result: Ok(result),
                            },
                        ],
                    }
                } else {
                    Transition { next: self, effects: seq![] }
                }
            },
            MessageView::RpcCall { function, context, args } => {
                let result = if self.offers(function) {
                    answer
                } else {
                    unknown_rpc()
                };
                Transition {
                    next: self,
                    effects: seq![
                        EffectView::Send(MessageView::RpcResponse { context, result }),
                    ],
                }
            },
            MessageView::Broadcast(payload) => Transition {
                next: self,
                effects: seq![EffectView::Deliver(payload)],
            },
        }
    }

    /// A running loop registers a procedure, unless the name is taken.
    pub open spec fn register(self, name: Seq<char>, notify: N) -> Transition<N> {
        if self.offers(name) {
            Transition {
                next: self,
                effects: seq![
                    EffectView::Registered { notify, outcome: Err(Error::DuplicateName) },
                ],
            }
        } else {
            Transition {
                next: LoopState { procedures: self.procedures.push(name), ..self },
                effects: seq![EffectView::Registered { notify, outcome: Ok(()) }],
            }
        }
    }

    /// A running loop shuts down: every call that still waits fails, oldest
    /// first, and then the writer's queue is closed.
    pub open spec fn quit(self) -> Transition<N> {
        Transition {
            next: LoopState { running: false, pending: Seq::empty(), ..self },
            effects: self.pending.map_values(|call: PendingCall<N>| abandon(call)).push(
                EffectView::CloseOutbound,
            ),
        }
    }

    /// A loop that has shut down changes no more. Whoever still asks for
    /// something is told that the connection is closed; messages are dropped.
    pub open spec fn refuse(self, command: CommandView<N>) -> Transition<N> {
        Transition {
            next: self,
            effects: match command {
                CommandView::Call { function, args, notify } => seq![
                    EffectView::Resolve { notify, result: Err(Error::Disconnected) },
                ],
                CommandView::NewRpc { name, notify } => seq![
                    EffectView::Registered { notify, outcome: Err(Error::Disconnected) },
                ],
                CommandView::Received(message) => seq![],
                CommandView::Quit => seq![],
            },
        }
    }

    /// What the loop does with `command`. `answer` stands for what the
    /// called procedure returns, where the command is a call of one.
    pub open spec fn step(self, command: CommandView<N>, answer: RpcResult) -> Transition<N> {
        if !self.running {
            self.refuse(command)
        } else {
            match command {
                CommandView::Call { function, args, notify } => self.issue(function, args, notify),
                CommandView::Received(message) => self.receive(message, answer),
                CommandView::NewRpc { name, notify } => self.register(name, notify),
                CommandView::Quit => self.quit(),
            }
        }
    }
}

/// Every step leads from a valid state to a valid state, and the call
/// counter never goes back: an identifier that was given out once is not
/// given out again.
pub proof fn lemma_step_keeps_valid<N>(
    state: LoopState<N>,
    command: CommandView<N>,
    answer: RpcResult,
)
    requires
        state.valid(),
    ensures
        state.step(command, answer).next.valid(),
        state.step(command, answer).next.next_id >= state.next_id,
        state.step(command, answer).next.running ==> state.running,
{
    if state.running {
        match command {
            CommandView::Received(MessageView::RpcResponse { context, result }) => {
                if state.is_pending(context) {
                    lemma_without_keeps_valid(state, state.position(context));
                }
            },
            _ => {},
        }
    }
}

/// The identifier that a call gets is fresh: no waiting call has it, and
/// the counter has moved past it, so that no later call gets it either.
pub proof fn lemma_issued_id_is_fresh<N>(
    state: LoopState<N>,
    function: Seq<char>,
    args: serde_json::Value,
    notify: N,
)
    requires
        state.valid(),
        state.running,
        state.next_id < u64::MAX,
    ensures
        !state.is_pending(state.next_id),
        state.issue(function, args, notify).next.is_pending(state.next_id),
        state.issue(function, args, notify).next.next_id > state.next_id,
        state.issue(function, args, notify).next.valid(),
{
    let issued = state.issue(function, args, notify).next;
    assert(issued.pending[state.pending.len() as int].id == state.next_id);
}

/// A call ends once: an identifier that has been given out and waits no
/// longer never waits again, whatever the loop is asked to do.
pub proof fn lemma_resolved_call_stays_resolved<N>(
    state: LoopState<N>,
    id: u64,
    command: CommandView<N>,
    answer: RpcResult,
)
    requires
        state.valid(),
        id < state.next_id,
        !state.is_pending(id),
    ensures
        id < state.step(command, answer).next.next_id,
        !state.step(command, answer).next.is_pending(id),
{
}

/// A call that was issued gets the response that carries its identifier:
/// the result goes to the caller's own handle, the call waits no longer, and
/// nothing else changes.
pub proof fn lemma_response_reaches_its_caller<N>(
    state: LoopState<N>,
    function: Seq<char>,
    args: serde_json::Value,
    notify: N,
    result: RpcResult,
    answer: RpcResult,
)
    requires
        state.valid(),
        state.running,
        state.next_id < u64::MAX,
    ensures
        state.issue(function, args, notify).effects == seq![
            EffectView::<N>::Send(
                MessageView::RpcCall { function, context: state.next_id, args },
            ),
        ],
        state.issue(function, args, notify).next.receive(
            MessageView::RpcResponse { context: state.next_id, result },
            answer,
        ) == (Transition {
            next: LoopState { next_id: (state.next_id + 1) as u64, ..state },
            effects: seq![EffectView::Resolve { notify, result: Ok(result) }],
        }),
{
    let issued = state.issue(function, args, notify).next;
    let last = state.pending.len() as int;
    assert(issued.pending[last].id == state.next_id);
    assert(issued.pending.remove(last) =~= state.pending);
}

/// A response goes to the call that it names, wherever that call stands
/// among the waiting ones: that caller gets the result, and every other call
/// keeps waiting with its own handle.
pub proof fn lemma_response_picks_by_id<N>(
    state: LoopState<N>,
    at: int,
    result: RpcResult,
    answer: RpcResult,
)
    requires
        state.valid(),
        state.running,
        0 <= at < state.pending.len(),
    ensures
        state.receive(
            MessageView::RpcResponse { context: state.pending[at].id, result },
            answer,
        ) == (Transition {
            next: state.without(at),
            effects: seq![
                EffectView::Resolve { notify: state.pending[at].notify, result: Ok(result) },
            ],
        }),
        !state.without(at).is_pending(state.pending[at].id),
        forall|other: int|
            0 <= other < state.pending.len() && other != at ==> state.without(at).is_pending(
                #[trigger] state.pending[other].id,
            ),
{
    assert forall|other: int|
        0 <= other < state.pending.len() && other != at implies state.without(at).is_pending(
        #[trigger] state.pending[other].id,
    ) by {
        let to = if other < at {
            other
        } else {
            other - 1
        };
        assert(state.without(at).pending[to].id == state.pending[other].id);
    }
}

/// Taking a call out of the waiting ones leaves a valid state.
pub proof fn lemma_without_keeps_valid<N>(state: LoopState<N>, at: int)
    requires
        state.valid(),
        0 <= at < state.pending.len(),
    ensures
        state.without(at).valid(),
        state.without(at).pending.len() == state.pending.len() - 1,
{
}

/// Where the call at `at` stands once the call at `gone` has been taken
/// out.
pub open spec fn moved_up(at: int, gone: int) -> int {
    if at < gone {
        at
    } else {
        at - 1
    }
}

/// Two responses, one after the other: each resolves the call that it
/// names, whatever stood between them.
pub proof fn lemma_two_responses<N>(
    state: LoopState<N>,
    a: int,
    b: int,
    result_a: RpcResult,
    result_b: RpcResult,
    answer: RpcResult,
)
    requires
        state.valid(),
        state.running,
        0 <= a < state.pending.len(),
        0 <= b < state.pending.len(),
        a != b,
    ensures
        state.receive(
            MessageView::RpcResponse { context: state.pending[a].id, result: result_a },
            answer,
        ) == (Transition {
            next: state.without(a),
            effects: seq![
                EffectView::Resolve { notify: state.pending[a].notify, result: Ok(result_a) },
            ],
        }),
        state.without(a).receive(
            MessageView::RpcResponse { context: state.pending[b].id, result: result_b },
            answer,
        ) == (Transition {
            next: state.without(a).without(moved_up(b, a)),
            effects: seq![
                EffectView::Resolve { notify: state.pending[b].notify, result: Ok(result_b) },
            ],
        }),
{
    lemma_response_picks_by_id(state, a, result_a, answer);
    lemma_without_keeps_valid(state, a);
    lemma_response_picks_by_id(state.without(a), moved_up(b, a), result_b, answer);
}

/// Two responses that arrive in either order resolve the same two calls
/// with the same results, and leave the same calls waiting.
pub proof fn lemma_responses_in_any_order<N>(
    state: LoopState<N>,
    a: int,
    b: int,
    result_a: RpcResult,
    result_b: RpcResult,
    answer: RpcResult,
)
    requires
        state.valid(),
        state.running,
        0 <= a < state.pending.len(),
        0 <= b < state.pending.len(),
        a != b,
    ensures
        ({
            let to_a = MessageView::RpcResponse { context: state.pending[a].id, result: result_a };
            let to_b = MessageView::RpcResponse { context: state.pending[b].id, result: result_b };
            let for_a = EffectView::Resolve {
                notify: state.pending[a].notify,
                result: Ok(result_a),
            };
            let for_b = EffectView::Resolve {
                notify: state.pending[b].notify,
                result: Ok(result_b),
            };
            &&& state.receive(to_a, answer).effects == seq![for_a]
            &&& state.receive(to_a, answer).next.receive(to_b, answer).effects == seq![for_b]
            &&& state.receive(to_b, answer).effects == seq![for_b]
            &&& state.receive(to_b, answer).next.receive(to_a, answer).effects == seq![for_a]
            &&& state.receive(to_a, answer).next.receive(to_b, answer).next == state.receive(
                to_b,
                answer,
            ).next.receive(to_a, answer).next
        }),
{
    lemma_two_responses(state, a, b, result_a, result_b, answer);
    lemma_two_responses(state, b, a, result_b, result_a, answer);
    assert(state.pending.remove(a).remove(moved_up(b, a)) =~= state.pending.remove(b).remove(
        moved_up(a, b),
    ));
}

/// Of two registrations under one name the second fails with
/// `DuplicateName`, and the name stays registered as the first one left it.
pub proof fn lemma_second_registration_fails<N>(
    state: LoopState<N>,
    name: Seq<char>,
    first: N,
    second: N,
)
    requires
        state.valid(),
        state.running,
    ensures
        ({
            let once = state.register(name, first);
            let twice = once.next.register(name, second);
            &&& !state.offers(name) ==> once.effects == seq![
                EffectView::Registered { notify: first, outcome: Ok(()) },
            ]
            &&& once.next.offers(name)
            &&& twice.effects == seq![
                EffectView::Registered { notify: second, outcome: Err(Error::DuplicateName) },
            ]
            &&& twice.next == once.next
        }),
{
    if !state.offers(name) {
        let once = state.register(name, first).next;
        assert(once.procedures[state.procedures.len() as int] == name);
    }
}

/// A call of a name that no procedure is registered under is answered with
/// an error that says so, under the identifier of the call; the loop goes on
/// as before.
pub proof fn lemma_unknown_function_is_answered<N>(
    state: LoopState<N>,
    function: Seq<char>,
    context: u64,
    args: serde_json::Value,
    answer: RpcResult,
)
    requires
        state.valid(),
        state.running,
        !state.offers(function),
    ensures
        state.step(
            CommandView::Received(MessageView::RpcCall { function, context, args }),
            answer,
        ) == (Transition {
            next: state,
            effects: seq![
                EffectView::Send(
                    MessageView::RpcResponse {
                        context,
                        result: RpcResult {
                            kind: RpcResultKind::Failure(RpcErrorKind::UnknownRpc),
                            payload: None,
                        },
                    },
                ),
            ],
        }),
{
}

/// Shutting down leaves no call waiting, however many there are: each one
/// is failed with `Disconnected`, through its own handle; then the writer's
/// queue is closed. Whoever calls afterwards is told at once that the
/// connection is closed.
pub proof fn lemma_quit_fails_every_pending_call<N>(
    state: LoopState<N>,
    function: Seq<char>,
    args: serde_json::Value,
    late: N,
    answer: RpcResult,
)
    requires
        state.valid(),
        state.running,
    ensures
        ({
            let closed = state.step(CommandView::Quit, answer);
            &&& !closed.next.running
            &&& closed.next.pending.len() == 0
            &&& closed.effects.len() == state.pending.len() + 1
            &&& forall|i: int|
                0 <= i < state.pending.len() ==> #[trigger] closed.effects[i]
                    == (EffectView::Resolve {
                    notify: state.pending[i].notify,
                    result: Err(Error::Disconnected),
                })
            &&& closed.effects[state.pending.len() as int] == EffectView::<N>::CloseOutbound
            &&& closed.next.step(CommandView::Call { function, args, notify: late }, answer)
                == (Transition {
                next: closed.next,
                effects: seq![
                    EffectView::Resolve { notify: late, result: Err(Error::Disconnected) },
                ],
            })
        }),
{
}

/// A broadcast that arrives goes to the inbox as it came, and changes
/// nothing else.
pub proof fn lemma_broadcast_is_delivered_unchanged<N>(
    state: LoopState<N>,
    payload: serde_json::Value,
    answer: RpcResult,
)
    requires
        state.running,
    ensures
        state.step(CommandView::Received(MessageView::Broadcast(payload)), answer)
            == (Transition { next: state, effects: seq![EffectView::Deliver(payload)] }),
{
}


/// A registered procedure.
struct Procedure<H> {
    name: String,
    rpc: H,
}

/// The names of a run of procedures, in order.
spec fn names<H>(procedures: Seq<Procedure<H>>) -> Seq<Seq<char>> {
    Seq::new(procedures.len(), |i: int| procedures[i].name@)
}

/// The command loop of one connection.
pub struct CommandLoop<N, H> {
    running: bool,
    next_id: u64,
    pending: Vec<PendingCall<N>>,
    procedures: Vec<Procedure<H>>,
}

impl<N, H> View for CommandLoop<N, H> {
    type V = LoopState<N>;

    closed spec fn view(&self) -> LoopState<N> {
        LoopState {
            running: self.running,
            next_id: self.next_id,
            pending: self.pending@,
            procedures: names(self.procedures@),
        }
    }
}

impl<N, H: Rpc> CommandLoop<N, H> {
    /// The loop of a new connection.
    pub fn new() -> (fresh: Self)
        ensures
            fresh@ == LoopState::<N>::initial(),
            fresh@.valid(),
    {
        let fresh = CommandLoop {
            running: true,
            next_id: 0,
            pending: Vec::new(),
            procedures: Vec::new(),
        };
        assert(fresh@.procedures =~= Seq::empty());
        fresh
    }

    /// The loop of a new connection whose calls are numbered from `first_id`
    /// on.
    pub fn with_first_id(first_id: u64) -> (fresh: Self)
        ensures
            fresh@ == (LoopState { next_id: first_id, ..LoopState::<N>::initial() }),
            fresh@.valid(),
    {
        let fresh = CommandLoop {
            running: true,
            next_id: first_id,
            pending: Vec::new(),
            procedures: Vec::new(),
        };
        assert(fresh@.procedures =~= Seq::empty());
        fresh
    }

    /// Whether the loop still takes commands.
    pub fn is_running(&self) -> (running: bool)
        ensures
            running == self@.running,
    {
        self.running
    }

    /// Takes one command: changes the bookkeeping as the command asks, and
    /// returns what is to be done about it, in order.
    pub fn step(&mut self, command: Command<N, H>) -> (effects: Vec<Effect<N>>)
        requires
            old(self)@.valid(),
        ensures
            exists|answer: RpcResult|
                (Transition { next: final(self)@, effects: views(effects@) })
                    == #[trigger] old(self)@.step(command@, answer),
            final(self)@.valid(),
    {
        let ghost before = self@;
        let ghost asked = command@;
        // Only a call of a registered procedure depends on the answer. For
        // every other command any answer is a witness.
        let ghost any = unknown_rpc();
        if !self.running {
            let effects = Self::refuse(command);
            assert((Transition { next: self@, effects: views(effects@) }) == before.step(
                asked,
                any,
            ));
            return effects;
        }
        match command {
            Command::Call { function, args, notify } => {
                let effects = self.issue(function, args, notify);
                assert((Transition { next: self@, effects: views(effects@) }) == before.step(
                    asked,
                    any,
                ));
                effects
            },
            Command::Received(message) => {
                let effects = self.receive(message);
                proof {
                    let next = Transition { next: self@, effects: views(effects@) };
                    let answer = choose|answer: RpcResult|
                        next == #[trigger] before.receive(asked->Received_0, answer);
                    assert(next == before.step(asked, answer));
                }
                effects
            },
            Command::NewRpc { name, rpc, notify } => {
                let effects = self.register(name, rpc, notify);
                assert((Transition { next: self@, effects: views(effects@) }) == before.step(
                    asked,
                    any,
                ));
                effects
            },
            Command::Quit => {
                let effects = self.quit();
                assert((Transition { next: self@, effects: views(effects@) }) == before.step(
                    asked,
                    any,
                ));
                effects
            },
        }
    }

    fn refuse(command: Command<N, H>) -> (effects: Vec<Effect<N>>)
        ensures
            forall|state: LoopState<N>|
                views(effects@) == (#[trigger] state.refuse(command@)).effects,
    {
        let mut effects: Vec<Effect<N>> = Vec::new();
        match command {
            Command::Call { function, args, notify } => {
                effects.push(Effect::Resolve { notify, result: Err(Error::Disconnected) });
            },
            Command::NewRpc { name, rpc, notify } => {
                effects.push(Effect::Registered { notify, outcome: Err(Error::Disconnected) });
            },
            Command::Received(message) => {},
            Command::Quit => {},
        }
        effects
    }

    fn issue(&mut self, function: String, args: serde_json::Value, notify: N) -> (effects: Vec<
        Effect<N>,
    >)
        requires
            old(self)@.valid(),
            old(self)@.running,
        ensures
            (Transition { next: final(self)@, effects: views(effects@) }) == old(self)@.issue(
                function@,
                args,
                notify,
            ),
            final(self)@.valid(),
    {
        let mut effects: Vec<Effect<N>> = Vec::new();
        if self.next_id == u64::MAX {
            effects.push(Effect::Resolve { notify, result: Err(Error::OutOfCallIds) });
        } else {
            let id: u64 = self.next_id;
            self.next_id = id + 1;
            self.pending.push(PendingCall { id, notify });
            effects.push(Effect::Send(Message::RpcCall(RpcCall { function, context: id, args })));
        }
        assert(views(effects@) =~= old(self)@.issue(function@, args, notify).effects);
        effects
    }

    fn receive(&mut self, message: Message) -> (effects: Vec<Effect<N>>)
        requires
            old(self)@.valid(),
            old(self)@.running,
        ensures
            exists|answer: RpcResult|
                (Transition { next: final(self)@, effects: views(effects@) })
                    == #[trigger] old(self)@.receive(message@, answer),
            final(self)@.valid(),
    {
        let ghost before = self@;
        let ghost taken = message@;
        let mut effects: Vec<Effect<N>> = Vec::new();
        match message {
            Message::RpcResponse(response) => {
                match self.find_pending(response.context) {
                    Some(at) => {
                        let call = self.pending.remove(at);
                        effects.push(
                            Effect::Resolve { notify: call.notify, result: Ok(response.result) },
                        );
                    },
                    None => {},
                }
                assert(views(effects@) =~= before.receive(taken, unknown_rpc()).effects);
            },
            Message::RpcCall(call) => {
                let result = match self.find_procedure(&call.function) {
                    Some(at) => self.procedures[at].rpc.call(call.args),
                    None => RpcResult::error(RpcErrorKind::UnknownRpc),
                };
                effects.push(Effect::Send(Message::response(call.context, result)));
                assert(names(self.procedures@) =~= before.procedures);
                assert(views(effects@) =~= before.receive(taken, result).effects);
            },
            Message::Broadcast(payload) => {
                effects.push(Effect::Deliver(payload));
                assert(views(effects@) =~= before.receive(taken, unknown_rpc()).effects);
            },
        }
        effects
    }

    fn register(&mut self, name: String, rpc: H, notify: N) -> (effects: Vec<Effect<N>>)
        requires
            old(self)@.valid(),
            old(self)@.running,
        ensures
            (Transition { next: final(self)@, effects: views(effects@) }) == old(self)@.register(
                name@,
                notify,
            ),
            final(self)@.valid(),
    {
        let mut effects: Vec<Effect<N>> = Vec::new();
        match self.find_procedure(&name) {
            Some(_) => {
                effects.push(Effect::Registered { notify, outcome: Err(Error::DuplicateName) });
            },
            None => {
                self.procedures.push(Procedure { name, rpc });
                assert(names(self.procedures@) =~= old(self)@.procedures.push(name@));
                effects.push(Effect::Registered { notify, outcome: Ok(()) });
            },
        }
        assert(views(effects@) =~= old(self)@.register(name@, notify).effects);
        effects
    }

    fn quit(&mut self) -> (effects: Vec<Effect<N>>)
        requires
            old(self)@.valid(),
            old(self)@.running,
        ensures
            (Transition { next: final(self)@, effects: views(effects@) }) == old(self)@.quit(),
            final(self)@.valid(),
    {
        let mut waiting: Vec<PendingCall<N>> = Vec::new();
        core::mem::swap(&mut self.pending, &mut waiting);
        self.running = false;
        let ghost calls = waiting@;
        let mut effects: Vec<Effect<N>> = Vec::new();
        for call in it: waiting
            invariant
                it.seq() == calls,
                views(effects@) == calls.take(it.index() as int).map_values(
                    |call: PendingCall<N>| abandon(call),
                ),
        {
            let ghost prior = effects@;
            let ghost failed = calls.take(it.index() + 1).map_values(
                |call: PendingCall<N>| abandon(call),
            );
            effects.push(Effect::Resolve { notify: call.notify, result: Err(Error::Disconnected) });
            assert(views(prior).len() == it.index());
            assert forall|j: int| 0 <= j < effects@.len() implies views(effects@)[j]
                == failed[j] by {
                if j < it.index() {
                    assert(views(prior)[j] == prior[j]@);
                }
            }
        }
        assert(calls.take(calls.len() as int) =~= calls);
        effects.push(Effect::CloseOutbound);
        assert(views(effects@) =~= old(self)@.quit().effects);
        effects
    }

    fn find_pending(&self, id: u64) -> (found: Option<usize>)
        requires
            self@.valid(),
        ensures
            found is Some <==> self@.is_pending(id),
            found is Some ==> found->Some_0 == self@.position(id) && found->Some_0
                < self.pending@.len(),
    {
        let mut i: usize = 0;
        while i < self.pending.len()
            invariant
                self@.valid(),
                i <= self.pending@.len(),
                forall|j: int| 0 <= j < i ==> (#[trigger] self.pending@[j]).id != id,
            decreases self.pending@.len() - i,
        {
            if self.pending[i].id == id {
                return Some(i);
            }
            i = i + 1;
        }
        None
    }

    fn find_procedure(&self, name: &String) -> (found: Option<usize>)
        ensures
            found is Some <==> self@.offers(name@),
            found is Some ==> found->Some_0 < self.procedures@.len()
                && self.procedures@[found->Some_0 as int].name@ == name@,
    {
        let mut i: usize = 0;
        while i < self.procedures.len()
            invariant
                i <= self.procedures@.len(),
                forall|j: int| 0 <= j < i ==> (#[trigger] self.procedures@[j]).name@ != name@,
            decreases self.procedures@.len() - i,
        {
            if self.procedures[i].name == *name {
                assert(names(self.procedures@)[i as int] == name@);
                return Some(i);
            }
            i = i + 1;
        }
        None
    }
}

} // verus!
