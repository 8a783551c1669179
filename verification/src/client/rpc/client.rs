//! The calling end of a call: what the caller holds while the call is under
//! way.

use crate::error::Error;
use crate::ipc::RpcResult;
use vstd::prelude::*;

verus! {

/// How a call ended: with the result that the remote side sent, or with the
/// reason why none will come.
pub type CallResult = Result<RpcResult, Error>;

/// What a delivery on the caller's notification channel means. A channel that
/// closed without delivering anything means that the connection is gone.
pub open spec fn outcome_of(delivery: Option<CallResult>) -> CallResult {
    match delivery {
        Some(result) => result,
        None => Err(Error::Disconnected),
    }
}

/// How a wait with a time limit on the notification channel ended.
pub enum Delivery {
    /// The channel delivered the result.
    Arrived(CallResult),
    /// The channel closed without delivering anything.
    Closed,
    /// The time ran out first.
    TimedOut,
}

/// A call from the caller's side. It is resolved once, and keeps its result
/// from then on.
pub struct Context {
    result: Option<CallResult>,
}

impl View for Context {
    type V = Option<CallResult>;

    /// `None` while the call waits, the result once it is resolved.
    closed spec fn view(&self) -> Option<CallResult> {
        self.result
    }
}

/// A copy of `result`.
pub fn duplicate(result: &CallResult) -> (copy: CallResult)
    ensures
        copy == *result,
{
    match result {
        Ok(done) => {
            let payload = match &done.payload {
                Some(value) => Some(value.clone()),
                None => None,
            };
            Ok(RpcResult { kind: done.kind, payload })
        },
        Err(error) => Err(*error),
    }
}

impl Context {
    /// The context of a call that was handed to the command loop.
    pub fn new() -> (context: Context)
        ensures
            context@ is None,
    {
        Context { result: None }
    }

    /// The context of a call, once it is known whether the command queue
    /// took it. A call that the queue did not take fails here and now: the
    /// queue is closed, and nobody would ever answer.
    pub fn issued(queued: bool) -> (context: Result<Context, Error>)
        ensures
            queued ==> context is Ok && context->Ok_0@ is None,
            !queued ==> context is Err && context->Err_0 == Error::Disconnected,
    {
        if queued {
            Ok(Context { result: None })
        } else {
            Err(Error::Disconnected)
        }
    }

    /// Whether the call has its result.
    pub fn is_resolved(&self) -> (resolved: bool)
        ensures
            resolved == (self@ is Some),
    {
        self.result.is_some()
    }

    /// Takes what the notification channel delivered and returns the result
    /// of the call. The first delivery resolves the call; whatever is
    /// handed in after that is ignored, and the first result comes again.
    pub fn wait(&mut self, delivery: Option<CallResult>) -> (result: CallResult)
        ensures
            old(self)@ is Some ==> final(self)@ == old(self)@ && Some(result) == old(self)@,
            old(self)@ is None ==> final(self)@ == Some(outcome_of(delivery)) && result
                == outcome_of(delivery),
    {
        if self.result.is_none() {
            let outcome = match delivery {
                Some(result) => result,
                None => Err(Error::Disconnected),
            };
            self.result = Some(outcome);
        }
        match &self.result {
            Some(kept) => duplicate(kept),
            None => Err(Error::Disconnected),
        }
    }

    /// Like `wait`, for a caller that does not wait for ever. A wait that
    /// ran out of time fails with `TimedOut` and resolves nothing: the call
    /// is still under way, and a later wait may bring its result.
    pub fn wait_timeout(&mut self, delivery: Delivery) -> (result: CallResult)
        ensures
            old(self)@ is Some ==> final(self)@ == old(self)@ && Some(result) == old(self)@,
            old(self)@ is None ==> match delivery {
                Delivery::Arrived(arrived) => final(self)@ == Some(arrived) && result == arrived,
                Delivery::Closed => final(self)@ == Some(outcome_of(None)) && result
                    == outcome_of(None),
                Delivery::TimedOut => final(self)@ is None && result == Err::<RpcResult, Error>(
                    Error::TimedOut,
                ),
            },
    {
        match delivery {
            Delivery::Arrived(arrived) => self.wait(Some(arrived)),
            Delivery::Closed => self.wait(None),
            Delivery::TimedOut => {
                if self.result.is_some() {
                    self.wait(None)
                } else {
                    Err(Error::TimedOut)
                }
            },
        }
    }
}

} // verus!
