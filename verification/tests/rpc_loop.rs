use serde_json::Value;
use std::cell::RefCell;
use std::rc::Rc;
use switchboard::client::rpc::server::Rpc;
use switchboard::client::rpc_loop::{Command, CommandLoop, Effect};
use switchboard::error::{Error, RpcErrorKind};
use switchboard::ipc::{Message, RpcCall, RpcResponse, RpcResult, RpcResultKind};

/// A procedure that remembers what it was called with and answers with its
/// argument.
struct Echo {
    seen: Rc<RefCell<Vec<Value>>>,
}

impl Rpc for Echo {
    fn priority(&self) -> u16 {
        7
    }

    fn call(&mut self, args: Value) -> RpcResult {
        self.seen.borrow_mut().push(args.clone());
        RpcResult { kind: RpcResultKind::Success, payload: Some(args) }
    }
}

type Loop = CommandLoop<&'static str, Echo>;

fn echo() -> (Echo, Rc<RefCell<Vec<Value>>>) {
    let seen = Rc::new(RefCell::new(Vec::new()));
    (Echo { seen: seen.clone() }, seen)
}

fn text(s: &str) -> Value {
    Value::String(s.to_string())
}

fn blub() -> Value {
    let mut object = serde_json::Map::new();
    object.insert("blub".to_string(), text("blah"));
    Value::Object(object)
}

fn call(function: &str, args: Value, notify: &'static str) -> Command<&'static str, Echo> {
    Command::Call { function: function.to_string(), args, notify }
}

fn response(context: u64, result: RpcResult) -> Command<&'static str, Echo> {
    Command::Received(Message::RpcResponse(RpcResponse { context, result }))
}

fn incoming(function: &str, context: u64, args: Value) -> Command<&'static str, Echo> {
    Command::Received(Message::RpcCall(RpcCall { function: function.to_string(), context, args }))
}

fn request(function: &str, context: u64, args: Value) -> Effect<&'static str> {
    Effect::Send(Message::RpcCall(RpcCall { function: function.to_string(), context, args }))
}

fn payload(value: Value) -> RpcResult {
    RpcResult { kind: RpcResultKind::Success, payload: Some(value) }
}

#[test]
fn new_loop_is_running() {
    let engine = Loop::new();
    assert!(engine.is_running());
}

#[test]
fn call_ids_count_up_from_zero() {
    let mut engine = Loop::new();
    assert_eq!(engine.step(call("a", text("1"), "first")), vec![request("a", 0, text("1"))]);
    assert_eq!(engine.step(call("b", text("2"), "second")), vec![request("b", 1, text("2"))]);
    assert_eq!(engine.step(call("a", text("3"), "third")), vec![request("a", 2, text("3"))]);
}

#[test]
fn call_ids_are_not_reused_after_a_response() {
    let mut engine = Loop::new();
    engine.step(call("a", Value::Null, "first"));
    engine.step(response(0, RpcResult::ok()));
    assert_eq!(engine.step(call("a", Value::Null, "second")), vec![request("a", 1, Value::Null)]);
}

#[test]
fn response_resolves_the_call_it_names() {
    let mut engine = Loop::new();
    engine.step(call("a", Value::Null, "first"));
    let effects = engine.step(response(0, payload(text("done"))));
    assert_eq!(
        effects,
        vec![Effect::Resolve { notify: "first", result: Ok(payload(text("done"))) }]
    );
}

#[test]
fn responses_out_of_order_reach_their_own_callers() {
    let mut engine = Loop::new();
    engine.step(call("f", text("x"), "caller of x"));
    engine.step(call("f", text("y"), "caller of y"));
    engine.step(call("f", text("z"), "caller of z"));
    assert_eq!(
        engine.step(response(2, payload(text("for z")))),
        vec![Effect::Resolve { notify: "caller of z", result: Ok(payload(text("for z"))) }]
    );
    assert_eq!(
        engine.step(response(0, payload(text("for x")))),
        vec![Effect::Resolve { notify: "caller of x", result: Ok(payload(text("for x"))) }]
    );
    assert_eq!(
        engine.step(response(1, payload(text("for y")))),
        vec![Effect::Resolve { notify: "caller of y", result: Ok(payload(text("for y"))) }]
    );
}

#[test]
fn error_response_is_handed_on_as_a_result() {
    let mut engine = Loop::new();
    engine.step(call("nobody.home", Value::Null, "caller"));
    let effects = engine.step(response(0, RpcResult::error(RpcErrorKind::UnknownRpc)));
    assert_eq!(
        effects,
        vec![Effect::Resolve {
            notify: "caller",
            result: Ok(RpcResult {
                kind: RpcResultKind::Failure(RpcErrorKind::UnknownRpc),
                payload: None
            }),
        }]
    );
    assert!(engine.is_running());
}

#[test]
fn unknown_response_is_dropped() {
    let mut engine = Loop::new();
    assert_eq!(engine.step(response(5, RpcResult::ok())), vec![]);
    engine.step(call("a", Value::Null, "caller"));
    assert_eq!(engine.step(response(1, RpcResult::ok())), vec![]);
    assert!(engine.is_running());
    assert_eq!(
        engine.step(response(0, RpcResult::ok())),
        vec![Effect::Resolve { notify: "caller", result: Ok(RpcResult::ok()) }]
    );
}

#[test]
fn second_response_to_one_call_is_dropped() {
    let mut engine = Loop::new();
    engine.step(call("a", Value::Null, "caller"));
    assert_eq!(engine.step(response(0, RpcResult::ok())).len(), 1);
    assert_eq!(engine.step(response(0, RpcResult::ok())), vec![]);
}

#[test]
fn registered_procedure_answers_with_the_call_id() {
    let mut engine = Loop::new();
    let (rpc, seen) = echo();
    let registered =
        engine.step(Command::NewRpc { name: "testclient.test".to_string(), rpc, notify: "owner" });
    assert_eq!(registered, vec![Effect::Registered { notify: "owner", outcome: Ok(()) }]);
    let effects = engine.step(incoming("testclient.test", 99, blub()));
    assert_eq!(
        effects,
        vec![Effect::Send(Message::RpcResponse(RpcResponse {
            context: 99,
            result: payload(blub()),
        }))]
    );
    assert_eq!(*seen.borrow(), vec![blub()]);
}

#[test]
fn duplicate_name_is_rejected_and_the_first_stays() {
    let mut engine = Loop::new();
    let (first, seen_by_first) = echo();
    let (second, seen_by_second) = echo();
    assert_eq!(
        engine.step(Command::NewRpc { name: "twice".to_string(), rpc: first, notify: "one" }),
        vec![Effect::Registered { notify: "one", outcome: Ok(()) }]
    );
    assert_eq!(
        engine.step(Command::NewRpc { name: "twice".to_string(), rpc: second, notify: "two" }),
        vec![Effect::Registered { notify: "two", outcome: Err(Error::DuplicateName) }]
    );
    engine.step(incoming("twice", 1, text("who answers?")));
    assert_eq!(*seen_by_first.borrow(), vec![text("who answers?")]);
    assert!(seen_by_second.borrow().is_empty());
    assert!(engine.is_running());
}

#[test]
fn other_names_can_still_be_registered() {
    let mut engine = Loop::new();
    let (first, _) = echo();
    let (second, seen_by_second) = echo();
    engine.step(Command::NewRpc { name: "one".to_string(), rpc: first, notify: "a" });
    assert_eq!(
        engine.step(Command::NewRpc { name: "two".to_string(), rpc: second, notify: "b" }),
        vec![Effect::Registered { notify: "b", outcome: Ok(()) }]
    );
    engine.step(incoming("two", 3, Value::Null));
    assert_eq!(seen_by_second.borrow().len(), 1);
}

#[test]
fn unknown_function_gets_an_error_response() {
    let mut engine = Loop::new();
    let effects = engine.step(incoming("no.such.function", 17, blub()));
    assert_eq!(
        effects,
        vec![Effect::Send(Message::RpcResponse(RpcResponse {
            context: 17,
            result: RpcResult {
                kind: RpcResultKind::Failure(RpcErrorKind::UnknownRpc),
                payload: None
            },
        }))]
    );
    assert!(engine.is_running());
    assert_eq!(engine.step(call("a", Value::Null, "caller")), vec![request("a", 0, Value::Null)]);
}

#[test]
fn broadcast_goes_to_the_inbox_unchanged() {
    let mut engine = Loop::new();
    assert_eq!(
        engine.step(Command::Received(Message::Broadcast(blub()))),
        vec![Effect::Deliver(blub())]
    );
    engine.step(call("a", Value::Null, "caller"));
    assert_eq!(
        engine.step(Command::Received(Message::Broadcast(text("again")))),
        vec![Effect::Deliver(text("again"))]
    );
    assert_eq!(engine.step(response(0, RpcResult::ok())).len(), 1);
}

#[test]
fn quit_with_no_pending_call() {
    let mut engine = Loop::new();
    assert_eq!(engine.step(Command::Quit), vec![Effect::CloseOutbound]);
    assert!(!engine.is_running());
}

#[test]
fn quit_with_one_pending_call() {
    let mut engine = Loop::new();
    engine.step(call("a", Value::Null, "caller"));
    assert_eq!(
        engine.step(Command::Quit),
        vec![
            Effect::Resolve { notify: "caller", result: Err(Error::Disconnected) },
            Effect::CloseOutbound,
        ]
    );
    assert!(!engine.is_running());
}

#[test]
fn quit_with_many_pending_calls() {
    let mut engine = Loop::new();
    engine.step(call("a", Value::Null, "first"));
    engine.step(call("b", Value::Null, "second"));
    engine.step(call("c", Value::Null, "third"));
    engine.step(call("d", Value::Null, "fourth"));
    engine.step(response(1, RpcResult::ok()));
    assert_eq!(
        engine.step(Command::Quit),
        vec![
            Effect::Resolve { notify: "first", result: Err(Error::Disconnected) },
            Effect::Resolve { notify: "third", result: Err(Error::Disconnected) },
            Effect::Resolve { notify: "fourth", result: Err(Error::Disconnected) },
            Effect::CloseOutbound,
        ]
    );
}

#[test]
fn after_quit_everything_is_refused() {
    let mut engine = Loop::new();
    let (rpc, seen) = echo();
    engine.step(Command::NewRpc { name: "f".to_string(), rpc, notify: "owner" });
    engine.step(call("a", Value::Null, "early"));
    engine.step(Command::Quit);
    assert_eq!(
        engine.step(call("a", Value::Null, "late")),
        vec![Effect::Resolve { notify: "late", result: Err(Error::Disconnected) }]
    );
    let (other, _) = echo();
    assert_eq!(
        engine.step(Command::NewRpc { name: "g".to_string(), rpc: other, notify: "late owner" }),
        vec![Effect::Registered { notify: "late owner", outcome: Err(Error::Disconnected) }]
    );
    assert_eq!(engine.step(response(0, RpcResult::ok())), vec![]);
    assert_eq!(engine.step(incoming("f", 1, Value::Null)), vec![]);
    assert!(seen.borrow().is_empty());
    assert_eq!(engine.step(Command::Received(Message::Broadcast(blub()))), vec![]);
    assert_eq!(engine.step(Command::Quit), vec![]);
    assert!(!engine.is_running());
}

#[test]
fn last_call_id_can_still_be_used() {
    let mut engine = Loop::with_first_id(u64::MAX - 1);
    assert_eq!(
        engine.step(call("a", Value::Null, "last")),
        vec![request("a", u64::MAX - 1, Value::Null)]
    );
    assert_eq!(
        engine.step(response(u64::MAX - 1, RpcResult::ok())),
        vec![Effect::Resolve { notify: "last", result: Ok(RpcResult::ok()) }]
    );
}

#[test]
fn call_fails_once_the_ids_have_run_out() {
    let mut engine = Loop::with_first_id(u64::MAX - 1);
    engine.step(call("a", Value::Null, "last"));
    assert_eq!(
        engine.step(call("a", Value::Null, "one too many")),
        vec![Effect::Resolve { notify: "one too many", result: Err(Error::OutOfCallIds) }]
    );
    assert!(engine.is_running());
    assert_eq!(
        engine.step(response(u64::MAX - 1, RpcResult::ok())),
        vec![Effect::Resolve { notify: "last", result: Ok(RpcResult::ok()) }]
    );
}
