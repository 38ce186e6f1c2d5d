//! Asynchronous reply: receive a request, then send its reply.

use vstd::prelude::*;
use crate::result::{error_of, nng_int_to_result, Error, NngErrno, Result};

verus! {

/// Where a reply context stands.
#[derive(Clone, Copy, Debug, PartialEq, Eq, Structural)]
pub enum ReplyState {
    /// Nothing started.
    Idle,
    /// Waiting for a request.
    Receiving,
    /// A request arrived; its reply is awaited from the user.
    Wait,
    /// The reply is being sent.
    Sending,
}

/// What the caller must do next with the aio, the context and the queue of
/// received requests.
#[derive(Debug)]
pub enum ReplyAction<S> {
    /// Start `nng_ctx_recv` to wait for a request.
    StartRecv,
    /// Hand the reply message to the aio and start `nng_ctx_send`.
    StartSend,
    /// Receiving stopped with `error` (the context was closed or the
    /// operation canceled): queue the error for readers; receive no more.
    ReceiveStopped { error: Error },
    /// Take the request from the aio and queue it for readers.
    Received,
    /// The reply went out, or failed with the error in `result`: where it
    /// failed take the reply message back from the aio; then start
    /// `nng_ctx_recv` for the next request, and deliver `result` through
    /// `sender`.
    Replied { sender: S, result: Result<()> },
}

/// The errors on which a receive ends without being restarted.
pub open spec fn stops_receiving(e: Error) -> bool {
    e == Error::Errno(NngErrno::ECLOSED) || e == Error::Errno(NngErrno::ECANCELED)
}

/// The completions a context in `state` can take: a receive that fails
/// with an error that does not stop receiving would be restarted from a
/// state that refuses it, so it is not one of them.
pub open spec fn reply_accepts(state: ReplyState, res: i32) -> bool {
    ||| state == ReplyState::Sending
    ||| state == ReplyState::Receiving && (res == 0 || stops_receiving(error_of(res)))
}

/// The state after the aio of a context in `state` completed with `res`.
pub open spec fn reply_next(state: ReplyState, res: i32) -> ReplyState {
    match state {
        ReplyState::Receiving => if res == 0 {
            ReplyState::Wait
        } else {
            ReplyState::Receiving
        },
        ReplyState::Sending => ReplyState::Receiving,
        _ => state,
    }
}

/// The state of an asynchronous reply context, and the sender through which
/// the outcome of the reply in flight is delivered.
pub struct ReplyContext<S> {
    state: ReplyState,
    reply_sender: Option<S>,
}

impl<S> ReplyContext<S> {
    /// A sender is held exactly while a reply is being sent.
    pub closed spec fn wf(&self) -> bool {
        (self.state == ReplyState::Sending) == (self.reply_sender is Some)
    }

    /// Where the context stands.
    pub closed spec fn state_spec(&self) -> ReplyState {
        self.state
    }

    /// The sender of the reply in flight.
    pub closed spec fn pending(&self) -> Option<S> {
        self.reply_sender
    }

    /// A context that has not started receiving.
    pub fn new() -> (r: ReplyContext<S>)
        ensures
            r.wf(),
            r.state_spec() == ReplyState::Idle,
            r.pending() is None,
    {
        ReplyContext { state: ReplyState::Idle, reply_sender: None }
    }

    /// Where the context stands.
    pub fn state(&self) -> (r: ReplyState)
        ensures
            r == self.state_spec(),
    {
        self.state
    }

    /// Whether the context can take a completion of its aio with `res`.
    pub fn accepts(&self, res: i32) -> (r: bool)
        ensures
            r == reply_accepts(self.state_spec(), res),
    {
        match self.state {
            ReplyState::Sending => true,
            ReplyState::Receiving => match nng_int_to_result(res) {
                Ok(()) => true,
                Err(Error::Errno(NngErrno::ECLOSED)) => true,
                Err(Error::Errno(NngErrno::ECANCELED)) => true,
                Err(_) => false,
            },
            _ => false,
        }
    }

    /// Start waiting for a request.
    pub fn receive(&mut self) -> (r: ReplyAction<S>)
        requires
            old(self).wf(),
            old(self).state_spec() == ReplyState::Idle,
        ensures
            final(self).wf(),
            final(self).state_spec() == ReplyState::Receiving,
            r is StartRecv,
    {
        self.state = ReplyState::Receiving;
        ReplyAction::StartRecv
    }

    /// Reply to the request received; its outcome goes to `sender`.
    pub fn reply(&mut self, sender: S) -> (r: ReplyAction<S>)
        requires
            old(self).wf(),
            old(self).state_spec() == ReplyState::Wait,
        ensures
            final(self).wf(),
            final(self).state_spec() == ReplyState::Sending,
            final(self).pending() == Some(sender),
            r is StartSend,
    {
        self.reply_sender = Some(sender);
        self.state = ReplyState::Sending;
        ReplyAction::StartSend
    }

    /// The aio completed with `res` (`nng_aio_result`).
    pub fn callback(&mut self, res: i32) -> (r: ReplyAction<S>)
        requires
            old(self).wf(),
            reply_accepts(old(self).state_spec(), res),
        ensures
            final(self).wf(),
            final(self).state_spec() == reply_next(old(self).state_spec(), res),
            final(self).pending() is None,
            old(self).state_spec() == ReplyState::Receiving && res != 0 ==> r == (ReplyAction::<S>::ReceiveStopped {
                error: error_of(res),
            }),
            old(self).state_spec() == ReplyState::Receiving && res == 0 ==> r is Received,
            old(self).state_spec() == ReplyState::Sending ==> r == (ReplyAction::Replied {
                sender: old(self).pending().unwrap(),
                result: crate::result::int_result(res),
            }),
    {
        match self.state {
            ReplyState::Receiving => {
                match nng_int_to_result(res) {
                    Err(error) => ReplyAction::ReceiveStopped { error },
                    Ok(()) => {
                        self.state = ReplyState::Wait;
                        ReplyAction::Received
                    },
                }
            },
            _ => {
                let result = nng_int_to_result(res);
                let sender = self.reply_sender.take().unwrap();
                self.state = ReplyState::Idle;
                let _restart = self.receive();
                ReplyAction::Replied { sender, result }
            },
        }
    }
}

/// A reply context serves requests one at a time: a request received puts
/// it in `Wait` (the only state that accepts a reply), and the completion
/// of a reply, successful or not, puts it back to receiving.
pub proof fn lemma_reply_cycle(recv_res: i32, send_res: i32)
    requires
        recv_res == 0,
    ensures
        reply_accepts(ReplyState::Receiving, recv_res),
        reply_next(ReplyState::Receiving, recv_res) == ReplyState::Wait,
        reply_accepts(ReplyState::Sending, send_res),
        reply_next(ReplyState::Sending, send_res) == ReplyState::Receiving,
{
}

} // verus!
