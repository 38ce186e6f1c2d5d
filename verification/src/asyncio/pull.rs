//! Asynchronous pull and subscribe: keep receiving messages.

use vstd::prelude::*;
use crate::asyncio::reply::stops_receiving;
use crate::result::{error_of, nng_int_to_result, Error, NngErrno};

verus! {

/// What the caller must do when a receive completes.
#[derive(Clone, Copy, Debug, PartialEq, Eq, Structural)]
pub enum ReadAction {
    /// The socket was closed or the receive canceled: queue `error` for
    /// readers and receive no more.
    Stop { error: Error },
    /// Start the next receive (`nng_recv_aio`), then queue `error`.
    RestartThenQueueError { error: Error },
    /// Take the message from the aio and queue it, then start the next
    /// receive.
    QueueMessageThenRestart,
}

/// What to do when a receive completes with `res` (`nng_aio_result`).
pub fn read_callback(res: i32) -> (r: ReadAction)
    ensures
        res == 0 ==> r == ReadAction::QueueMessageThenRestart,
        res != 0 && stops_receiving(error_of(res)) ==> r == (ReadAction::Stop { error: error_of(res) }),
        res != 0 && !stops_receiving(error_of(res)) ==> r == (ReadAction::RestartThenQueueError {
            error: error_of(res),
        }),
{
    match nng_int_to_result(res) {
        Err(error) => {
            if error == Error::Errno(NngErrno::ECLOSED) || error == Error::Errno(NngErrno::ECANCELED) {
                ReadAction::Stop { error }
            } else {
                ReadAction::RestartThenQueueError { error }
            }
        },
        Ok(()) => ReadAction::QueueMessageThenRestart,
    }
}

} // verus!
