//! Asynchronous request: send a request, then wait for its reply.

use vstd::prelude::*;
use crate::result::{error_of, nng_int_to_result, Error};

verus! {

/// Where a request context stands.
#[derive(Clone, Copy, Debug, PartialEq, Eq, Structural)]
pub enum RequestState {
    /// No request in flight.
    Ready,
    /// The request is being sent.
    Sending,
    /// The request went out; the reply is awaited.
    Receiving,
}

/// What the caller must do next with the aio and the context.
#[derive(Debug)]
pub enum RequestAction<S> {
    /// Hand the request message to the aio and start `nng_ctx_send`.
    StartSend,
    /// The request went out: start `nng_ctx_recv` to wait for the reply.
    StartRecv,
    /// Sending failed: take the request message back from the aio and
    /// deliver `error` through `sender`.
    SendFailed { sender: S, error: Error },
    /// Receiving failed: deliver `error` through `sender`.
    RecvFailed { sender: S, error: Error },
    /// Take the reply from the aio and deliver it through `sender`.
    Replied { sender: S },
}

/// The state after the aio of a context in `state` completed with `res`.
pub open spec fn request_next(state: RequestState, res: i32) -> RequestState {
    match state {
        RequestState::Ready => RequestState::Ready,
        RequestState::Sending => if res == 0 {
            RequestState::Receiving
        } else {
            RequestState::Ready
        },
        RequestState::Receiving => RequestState::Ready,
    }
}

/// Whether the completion of the aio of a context in `state` with `res`
/// ends the request, delivering its outcome.
pub open spec fn request_delivers(state: RequestState, res: i32) -> bool {
    state == RequestState::Receiving || (state == RequestState::Sending && res != 0)
}

/// Whether `action` delivers an outcome to the requester.
pub open spec fn is_delivery<S>(action: RequestAction<S>) -> bool {
    action is SendFailed || action is RecvFailed || action is Replied
}

/// The state of an asynchronous request context, and the sender through
/// which the outcome of the request in flight is delivered.
pub struct RequestContext<S> {
    state: RequestState,
    sender: Option<S>,
}

impl<S> RequestContext<S> {
    /// A sender is held exactly while a request is in flight.
    pub closed spec fn wf(&self) -> bool {
        (self.state == RequestState::Ready) == (self.sender is None)
    }

    /// Where the context stands.
    pub closed spec fn state_spec(&self) -> RequestState {
        self.state
    }

    /// The sender of the request in flight.
    pub closed spec fn pending(&self) -> Option<S> {
        self.sender
    }

    /// A context with no request in flight.
    pub fn new() -> (r: RequestContext<S>)
        ensures
            r.wf(),
            r.state_spec() == RequestState::Ready,
            r.pending() is None,
    {
        RequestContext { state: RequestState::Ready, sender: None }
    }

    /// Where the context stands.
    pub fn state(&self) -> (r: RequestState)
        ensures
            r == self.state_spec(),
    {
        self.state
    }

    /// Start a request whose outcome goes to `sender`.  Only one request
    /// may be in flight at a time.
    pub fn send(&mut self, sender: S) -> (r: RequestAction<S>)
        requires
            old(self).wf(),
            old(self).state_spec() == RequestState::Ready,
        ensures
            final(self).wf(),
            final(self).state_spec() == RequestState::Sending,
            final(self).pending() == Some(sender),
            r is StartSend,
    {
        self.sender = Some(sender);
        self.state = RequestState::Sending;
        RequestAction::StartSend
    }

    /// The aio completed with `res` (`nng_aio_result`).
    pub fn callback(&mut self, res: i32) -> (r: RequestAction<S>)
        requires
            old(self).wf(),
            old(self).state_spec() != RequestState::Ready,
        ensures
            final(self).wf(),
            final(self).state_spec() == request_next(old(self).state_spec(), res),
            is_delivery(r) == request_delivers(old(self).state_spec(), res),
            is_delivery(r) ==> final(self).pending() is None,
            !is_delivery(r) ==> r is StartRecv && final(self).pending() == old(self).pending(),
            old(self).state_spec() == RequestState::Sending && res != 0 ==> r == (RequestAction::SendFailed {
                sender: old(self).pending().unwrap(),
                error: error_of(res),
            }),
            old(self).state_spec() == RequestState::Receiving && res != 0 ==> r == (RequestAction::RecvFailed {
                sender: old(self).pending().unwrap(),
                error: error_of(res),
            }),
            old(self).state_spec() == RequestState::Receiving && res == 0 ==> r == (RequestAction::Replied {
                sender: old(self).pending().unwrap(),
            }),
    {
        match self.state {
            RequestState::Sending => {
                match nng_int_to_result(res) {
                    Err(error) => {
                        self.state = RequestState::Ready;
                        let sender = self.sender.take().unwrap();
                        RequestAction::SendFailed { sender, error }
                    },
                    Ok(()) => {
                        self.state = RequestState::Receiving;
                        RequestAction::StartRecv
                    },
                }
            },
            _ => {
                let sender = self.sender.take().unwrap();
                self.state = RequestState::Ready;
                match nng_int_to_result(res) {
                    Err(error) => RequestAction::RecvFailed { sender, error },
                    Ok(()) => RequestAction::Replied { sender },
                }
            },
        }
    }
}

/// Every request ends with exactly one delivery: a failed send delivers at
/// once; a successful send is followed by a receive whose completion, with
/// any result, delivers and makes the context ready again.
pub proof fn lemma_request_delivers_once(send_res: i32, recv_res: i32)
    ensures
        request_delivers(RequestState::Sending, send_res) ==> request_next(RequestState::Sending, send_res)
            == RequestState::Ready,
        !request_delivers(RequestState::Sending, send_res) ==> request_next(RequestState::Sending, send_res)
            == RequestState::Receiving,
        request_delivers(RequestState::Receiving, recv_res),
        request_next(RequestState::Receiving, recv_res) == RequestState::Ready,
{
}

} // verus!
