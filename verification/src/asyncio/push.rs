//! Asynchronous push and publish: send one message at a time.

use vstd::prelude::*;
use crate::result::{int_result, nng_int_to_result, Result};

verus! {

/// Where a push context stands.
#[derive(Clone, Copy, Debug, PartialEq, Eq, Structural)]
pub enum PushState {
    /// No message in flight.
    Ready,
    /// A message is being sent.
    Sending,
}

/// What the caller must do next with the aio.
#[derive(Debug)]
pub enum PushAction<S> {
    /// Hand the message to the aio and start `nng_send_aio`.
    StartSend,
    /// The send completed with `result`: where it failed take the message
    /// back from the aio; then deliver `result` through `sender`.
    Sent { sender: S, result: Result<()> },
}

/// The state of an asynchronous push context, and the sender through which
/// the outcome of the message in flight is delivered.
pub struct PushContext<S> {
    state: PushState,
    sender: Option<S>,
}

impl<S> PushContext<S> {
    /// A sender is held exactly while a message is in flight.
    pub closed spec fn wf(&self) -> bool {
        (self.state == PushState::Sending) == (self.sender is Some)
    }

    /// Where the context stands.
    pub closed spec fn state_spec(&self) -> PushState {
        self.state
    }

    /// The sender of the message in flight.
    pub closed spec fn pending(&self) -> Option<S> {
        self.sender
    }

    /// A context with no message in flight.
    pub fn new() -> (r: PushContext<S>)
        ensures
            r.wf(),
            r.state_spec() == PushState::Ready,
            r.pending() is None,
    {
        PushContext { state: PushState::Ready, sender: None }
    }

    /// Where the context stands.
    pub fn state(&self) -> (r: PushState)
        ensures
            r == self.state_spec(),
    {
        self.state
    }

    /// Start sending a message whose outcome goes to `sender`.  Only one
    /// message may be in flight at a time.
    pub fn send(&mut self, sender: S) -> (r: PushAction<S>)
        requires
            old(self).wf(),
            old(self).state_spec() == PushState::Ready,
        ensures
            final(self).wf(),
            final(self).state_spec() == PushState::Sending,
            final(self).pending() == Some(sender),
            r is StartSend,
    {
        self.sender = Some(sender);
        self.state = PushState::Sending;
        PushAction::StartSend
    }

    /// The aio completed with `res` (`nng_aio_result`).
    pub fn callback(&mut self, res: i32) -> (r: PushAction<S>)
        requires
            old(self).wf(),
            old(self).state_spec() == PushState::Sending,
        ensures
            final(self).wf(),
            final(self).state_spec() == PushState::Ready,
            final(self).pending() is None,
            r == (PushAction::Sent { sender: old(self).pending().unwrap(), result: int_result(res) }),
    {
        let result = nng_int_to_result(res);
        self.state = PushState::Ready;
        let sender = self.sender.take().unwrap();
        PushAction::Sent { sender, result }
    }
}

} // verus!
