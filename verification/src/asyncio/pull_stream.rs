//! Asynchronous pull as a stream of messages.

use vstd::prelude::*;
use crate::asyncio::reply::stops_receiving;
use crate::result::{error_of, nng_int_to_result, Error, NngErrno};

verus! {

/// Where a pull stream stands.
#[derive(Clone, Copy, Debug, PartialEq, Eq, Structural)]
pub enum PullState {
    /// Not receiving yet.
    Ready,
    /// Receiving.
    Receiving,
}

/// What the caller must do when a receive of the stream completes.
#[derive(Clone, Copy, Debug, PartialEq, Eq, Structural)]
pub enum StreamAction {
    /// The socket was closed or the receive canceled: signal `error` on the
    /// stream and receive no more.
    Stop { error: Error },
    /// Start the next receive (`nng_recv_aio`), then signal `error`.
    RestartThenSignalError { error: Error },
    /// Take the message from the aio, start the next receive, then signal
    /// the message.
    RestartThenSignalMessage,
}

/// The state of a pull stream, and the receiving end of its messages until
/// a reader takes it.
pub struct PullStreamContext<R> {
    state: PullState,
    receiver: Option<R>,
}

impl<R> PullStreamContext<R> {
    /// Where the stream stands.
    pub closed spec fn state_spec(&self) -> PullState {
        self.state
    }

    /// The receiving end, while no reader has taken it.
    pub closed spec fn receiver_spec(&self) -> Option<R> {
        self.receiver
    }

    /// A stream that has not started, holding `receiver`.
    pub fn new(receiver: R) -> (r: PullStreamContext<R>)
        ensures
            r.state_spec() == PullState::Ready,
            r.receiver_spec() == Some(receiver),
    {
        PullStreamContext { state: PullState::Ready, receiver: Some(receiver) }
    }

    /// Where the stream stands.
    pub fn state(&self) -> (r: PullState)
        ensures
            r == self.state_spec(),
    {
        self.state
    }

    /// Start receiving.  The caller starts `nng_recv_aio`.
    pub fn start_receive(&mut self)
        ensures
            final(self).state_spec() == PullState::Receiving,
            final(self).receiver_spec() == old(self).receiver_spec(),
    {
        self.state = PullState::Receiving;
    }

    /// Take the stream of messages.  The first time it is handed over and
    /// receiving starts (the caller starts `nng_recv_aio`); later calls
    /// give `None` and change nothing.
    pub fn receive(&mut self) -> (r: Option<R>)
        ensures
            r == old(self).receiver_spec(),
            final(self).receiver_spec() is None,
            r is Some ==> final(self).state_spec() == PullState::Receiving,
            r is None ==> final(self).state_spec() == old(self).state_spec(),
    {
        let receiver = self.receiver.take();
        if receiver.is_some() {
            self.start_receive();
        }
        receiver
    }

    /// A receive completed with `res` (`nng_aio_result`).
    pub fn callback(&mut self, res: i32) -> (r: StreamAction)
        requires
            old(self).state_spec() == PullState::Receiving,
        ensures
            final(self).state_spec() == PullState::Receiving,
            final(self).receiver_spec() == old(self).receiver_spec(),
            res == 0 ==> r == StreamAction::RestartThenSignalMessage,
            res != 0 && stops_receiving(error_of(res)) ==> r == (StreamAction::Stop { error: error_of(res) }),
            res != 0 && !stops_receiving(error_of(res)) ==> r == (StreamAction::RestartThenSignalError {
                error: error_of(res),
            }),
    {
        match nng_int_to_result(res) {
            Err(error) => {
                if error == Error::Errno(NngErrno::ECLOSED) || error == Error::Errno(NngErrno::ECANCELED) {
                    StreamAction::Stop { error }
                } else {
                    self.start_receive();
                    StreamAction::RestartThenSignalError { error }
                }
            },
            Ok(()) => {
                self.start_receive();
                StreamAction::RestartThenSignalMessage
            },
        }
    }
}

} // verus!
