//! Protocol contexts (`nng_ctx`): independent conversations on one socket.

use vstd::prelude::*;
use crate::result::{error_of, nng_int_to_result, Result};
use crate::socket::NngSocket;
use crate::sys::{handle_id, id_of_handle, nng_ctx, nng_socket};

verus! {

/// Handle to a context of a socket.
#[derive(Debug)]
pub struct NngCtx {
    ctx: nng_ctx,
}

impl View for NngCtx {
    type V = nng_ctx;

    closed spec fn view(&self) -> nng_ctx {
        self.ctx
    }
}

/// `r` is what opening a context gives where the native call
/// (`nng_ctx_open`) returned `out`: its error number and the handle.
pub open spec fn ctx_outcome(out: (i32, nng_ctx), r: Result<NngCtx>) -> bool {
    match r {
        Ok(c) => out.0 == 0 && c@ == out.1,
        Err(e) => out.0 != 0 && e == error_of(out.0),
    }
}

impl NngCtx {
    /// Open a context on `socket`; `open` makes the native call with the
    /// socket's handle.
    pub fn new<F>(socket: NngSocket, open: F) -> (r: Result<NngCtx>) where
        F: FnOnce(nng_socket) -> (i32, nng_ctx),

        requires
            call_requires(open, (socket@,)),
        ensures
            exists|out: (i32, nng_ctx)| call_ensures(open, (socket@,), out) && ctx_outcome(out, r),
    {
        let (res, ctx) = open(socket.nng_socket());
        let r = match nng_int_to_result(res) {
            Ok(()) => Ok(NngCtx { ctx }),
            Err(e) => Err(e),
        };
        assert(ctx_outcome((res, ctx), r));
        r
    }

    /// The id of the context, or -1 where the handle names none.
    pub fn id(&self) -> (r: i32)
        ensures
            r == handle_id(self@.id),
    {
        id_of_handle(self.ctx.id)
    }

    /// The handle of the context.
    pub fn ctx(&self) -> (r: nng_ctx)
        ensures
            r == self@,
    {
        self.ctx
    }

    /// Whether the context is open and must be closed when dropped: its id
    /// is positive.
    pub fn needs_close(&self) -> (r: bool)
        ensures
            r == (handle_id(self@.id) > 0),
    {
        self.id() > 0
    }
}

} // verus!
