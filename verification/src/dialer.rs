//! Dialers connect to listeners.

use vstd::prelude::*;
use vstd::string::StringSliceAdditionalSpecFns;
use crate::mem::{find_nul, first_nul};
use crate::result::{error_of, int_result, nng_int_to_result, Error, Result};
use crate::socket::NngSocket;
use crate::sys::{handle_id, id_of_handle, nng_dialer, nng_socket};

verus! {

/// A dialer of a socket, to the URL it was created with.
#[derive(Debug)]
pub struct NngDialer {
    dialer: nng_dialer,
    socket: NngSocket,
}

impl View for NngDialer {
    /// The handle of the dialer and of its socket.
    type V = (nng_dialer, nng_socket);

    closed spec fn view(&self) -> (nng_dialer, nng_socket) {
        (self.dialer, self.socket@)
    }
}

/// `r` is what creating a dialer of `socket` gives, where the
/// native call (`nng_dialer_create`) returned `out`: its error number and the handle.
pub open spec fn dialer_outcome(socket: nng_socket, out: (i32, nng_dialer), r: Result<NngDialer>) -> bool {
    match r {
        Ok(d) => out.0 == 0 && d@ == (out.1, socket),
        Err(e) => out.0 != 0 && e == error_of(out.0),
    }
}

impl NngDialer {
    /// Create a dialer of `socket` for `url`.  A URL holding a NUL byte is
    /// refused with `Error::NulError` before anything is created;
    /// otherwise `create` makes the native call with the socket's handle and
    /// the URL.
    pub fn new<F>(socket: NngSocket, url: &str, create: F) -> (r: Result<NngDialer>) where
        F: FnOnce(nng_socket, &str) -> (i32, nng_dialer),

        requires
            first_nul(url.spec_bytes()) is None ==> call_requires(create, (socket@, url)),
        ensures
            first_nul(url.spec_bytes()) matches Some(i) ==> r == Err::<NngDialer, Error>(Error::NulError(i as usize)),
            first_nul(url.spec_bytes()) is None ==> exists|out: (i32, nng_dialer)|
                call_ensures(create, (socket@, url), out) && dialer_outcome(socket@, out, r),
    {
        if let Some(i) = find_nul(url.as_bytes()) {
            return Err(Error::NulError(i));
        }
        let handle = socket.nng_socket();
        let (res, dialer) = create(handle, url);
        let r = match nng_int_to_result(res) {
            Ok(()) => Ok(NngDialer { dialer, socket }),
            Err(e) => Err(e),
        };
        assert(dialer_outcome(handle, (res, dialer), r));
        r
    }

    /// Start the dialer.  `start` makes the native call (`nng_dialer_start`) with the
    /// handle and no flags, and returns its error number.
    pub fn start<F>(&self, start: F) -> (r: Result<()>) where F: FnOnce(nng_dialer, i32) -> i32,
        requires
            call_requires(start, (self@.0, 0i32)),
        ensures
            exists|res: i32| call_ensures(start, (self@.0, 0i32), res) && r == int_result(res),
    {
        nng_int_to_result(start(self.dialer, 0))
    }

    /// The handle of the dialer.
    pub fn handle(&self) -> (r: nng_dialer)
        ensures
            r == self@.0,
    {
        self.dialer
    }

    /// The socket of the dialer.
    pub fn socket(&self) -> (r: &NngSocket)
        ensures
            r@ == self@.1,
    {
        &self.socket
    }
}

/// A dialer handle that owns nothing: it may be invalid or closed.
#[derive(Debug)]
pub struct UnsafeDialer {
    dialer: nng_dialer,
}

impl View for UnsafeDialer {
    type V = nng_dialer;

    closed spec fn view(&self) -> nng_dialer {
        self.dialer
    }
}

impl UnsafeDialer {
    pub fn new(dialer: nng_dialer) -> (r: UnsafeDialer)
        ensures
            r@ == dialer,
    {
        UnsafeDialer { dialer }
    }

    /// The id of the dialer, or -1 where the handle names none.
    pub fn id(&self) -> (r: i32)
        ensures
            r == handle_id(self@.id),
    {
        id_of_handle(self.dialer.id)
    }
}

} // verus!
