//! Listeners accept connections from dialers.

use vstd::prelude::*;
use vstd::string::StringSliceAdditionalSpecFns;
use crate::mem::{find_nul, first_nul};
use crate::result::{error_of, int_result, nng_int_to_result, Error, Result};
use crate::socket::NngSocket;
use crate::sys::{handle_id, id_of_handle, nng_listener, nng_socket};

verus! {

/// A listener of a socket, to the URL it was created with.
#[derive(Debug)]
pub struct NngListener {
    listener: nng_listener,
    socket: NngSocket,
}

impl View for NngListener {
    /// The handle of the listener and of its socket.
    type V = (nng_listener, nng_socket);

    closed spec fn view(&self) -> (nng_listener, nng_socket) {
        (self.listener, self.socket@)
    }
}

/// `r` is what creating a listener of `socket` gives, where the
/// native call (`nng_listener_create`) returned `out`: its error number and the handle.
pub open spec fn listener_outcome(socket: nng_socket, out: (i32, nng_listener), r: Result<NngListener>) -> bool {
    match r {
        Ok(d) => out.0 == 0 && d@ == (out.1, socket),
        Err(e) => out.0 != 0 && e == error_of(out.0),
    }
}

impl NngListener {
    /// Create a listener of `socket` for `url`.  A URL holding a NUL byte is
    /// refused with `Error::NulError` before anything is created;
    /// otherwise `create` makes the native call with the socket's handle and
    /// the URL.
    pub fn new<F>(socket: NngSocket, url: &str, create: F) -> (r: Result<NngListener>) where
        F: FnOnce(nng_socket, &str) -> (i32, nng_listener),

        requires
            first_nul(url.spec_bytes()) is None ==> call_requires(create, (socket@, url)),
        ensures
            first_nul(url.spec_bytes()) matches Some(i) ==> r == Err::<NngListener, Error>(Error::NulError(i as usize)),
            first_nul(url.spec_bytes()) is None ==> exists|out: (i32, nng_listener)|
                call_ensures(create, (socket@, url), out) && listener_outcome(socket@, out, r),
    {
        if let Some(i) = find_nul(url.as_bytes()) {
            return Err(Error::NulError(i));
        }
        let handle = socket.nng_socket();
        let (res, listener) = create(handle, url);
        let r = match nng_int_to_result(res) {
            Ok(()) => Ok(NngListener { listener, socket }),
            Err(e) => Err(e),
        };
        assert(listener_outcome(handle, (res, listener), r));
        r
    }

    /// Start the listener.  `start` makes the native call (`nng_listener_start`) with the
    /// handle and no flags, and returns its error number.
    pub fn start<F>(&self, start: F) -> (r: Result<()>) where F: FnOnce(nng_listener, i32) -> i32,
        requires
            call_requires(start, (self@.0, 0i32)),
        ensures
            exists|res: i32| call_ensures(start, (self@.0, 0i32), res) && r == int_result(res),
    {
        nng_int_to_result(start(self.listener, 0))
    }

    /// The handle of the listener.
    pub fn handle(&self) -> (r: nng_listener)
        ensures
            r == self@.0,
    {
        self.listener
    }

    /// The socket of the listener.
    pub fn socket(&self) -> (r: &NngSocket)
        ensures
            r@ == self@.1,
    {
        &self.socket
    }
}

/// A listener handle that owns nothing: it may be invalid or closed.
#[derive(Debug)]
pub struct UnsafeListener {
    listener: nng_listener,
}

impl View for UnsafeListener {
    type V = nng_listener;

    closed spec fn view(&self) -> nng_listener {
        self.listener
    }
}

impl UnsafeListener {
    pub fn new(listener: nng_listener) -> (r: UnsafeListener)
        ensures
            r@ == listener,
    {
        UnsafeListener { listener }
    }

    /// The id of the listener, or -1 where the handle names none.
    pub fn id(&self) -> (r: i32)
        ensures
            r == handle_id(self@.id),
    {
        id_of_handle(self.listener.id)
    }
}

} // verus!
