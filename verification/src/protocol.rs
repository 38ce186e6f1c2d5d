//! NNG protocols: a socket of each kind.

use vstd::prelude::*;
use crate::result::{error_of, Error, Result, nng_int_to_result};
use crate::socket::{GetSocket, NngSocket, Socket};
use crate::sys::nng_socket;

verus! {

/// The protocols a socket can be opened with.
#[derive(Clone, Copy, Debug, PartialEq, Eq, Structural)]
pub enum Protocol {
    Bus0,
    Pair0,
    Pair1,
    Pub0,
    Sub0,
    Push0,
    Pull0,
    Req0,
    Rep0,
}

/// `r` is what opening a socket gives when the native open call returned
/// `out`: the error number and the handle of the new socket.
pub open spec fn open_outcome<T: View<V = nng_socket>>(out: (i32, nng_socket), r: Result<T>) -> bool {
    match r {
        Ok(s) => out.0 == 0 && s@ == out.1,
        Err(e) => out.0 != 0 && e == error_of(out.0),
    }
}

/// Open a socket of the given protocol: `opener` makes the native call for
/// that protocol and returns its error number and the new handle.
pub fn nng_open<F>(protocol: Protocol, opener: F) -> (r: Result<NngSocket>) where
    F: FnOnce(Protocol) -> (i32, nng_socket),

    requires
        call_requires(opener, (protocol,)),
    ensures
        exists|out: (i32, nng_socket)| call_ensures(opener, (protocol,), out) && open_outcome(out, r),
{
    let (res, socket) = opener(protocol);
    let r = match nng_int_to_result(res) {
        Ok(()) => Ok(NngSocket::new(socket)),
        Err(e) => Err(e),
    };
    assert(open_outcome((res, socket), r));
    r
}

/// Bus pattern: every message goes to every peer.
#[derive(Debug)]
pub struct Bus0 {
    socket: NngSocket,
}

impl View for Bus0 {
    type V = nng_socket;

    closed spec fn view(&self) -> nng_socket {
        self.socket@
    }
}

impl Bus0 {
    /// Open a socket of this protocol; `opener` makes the native call.
    pub fn open<F>(opener: F) -> (r: Result<Bus0>) where
        F: FnOnce(Protocol) -> (i32, nng_socket),

        requires
            call_requires(opener, (Protocol::Bus0,)),
        ensures
            exists|out: (i32, nng_socket)| call_ensures(opener, (Protocol::Bus0,), out) && open_outcome(out, r),
    {
        let opened = nng_open(Protocol::Bus0, opener);
        let ghost out = choose|out: (i32, nng_socket)|
            call_ensures(opener, (Protocol::Bus0,), out) && open_outcome(out, opened);
        let r = match opened {
            Ok(socket) => Ok(Bus0 { socket }),
            Err(e) => Err(e),
        };
        assert(open_outcome(out, r));
        r
    }
}

impl Clone for Bus0 {
    /// Another reference to the same socket.
    fn clone(&self) -> (r: Bus0)
        ensures
            r@ == self@,
    {
        Bus0 { socket: self.socket.clone() }
    }
}

impl GetSocket for Bus0 {
    open spec fn socket_view(&self) -> nng_socket {
        self@
    }

    fn socket(&self) -> (r: &NngSocket) {
        &self.socket
    }

    fn socket_mut(&mut self) -> (r: &mut NngSocket) {
        &mut self.socket
    }
}

impl Socket for Bus0 {}

/// Half of the pair pattern (version 0).
#[derive(Debug)]
pub struct Pair0 {
    socket: NngSocket,
}

impl View for Pair0 {
    type V = nng_socket;

    closed spec fn view(&self) -> nng_socket {
        self.socket@
    }
}

impl Pair0 {
    /// Open a socket of this protocol; `opener` makes the native call.
    pub fn open<F>(opener: F) -> (r: Result<Pair0>) where
        F: FnOnce(Protocol) -> (i32, nng_socket),

        requires
            call_requires(opener, (Protocol::Pair0,)),
        ensures
            exists|out: (i32, nng_socket)| call_ensures(opener, (Protocol::Pair0,), out) && open_outcome(out, r),
    {
        let opened = nng_open(Protocol::Pair0, opener);
        let ghost out = choose|out: (i32, nng_socket)|
            call_ensures(opener, (Protocol::Pair0,), out) && open_outcome(out, opened);
        let r = match opened {
            Ok(socket) => Ok(Pair0 { socket }),
            Err(e) => Err(e),
        };
        assert(open_outcome(out, r));
        r
    }
}

impl Clone for Pair0 {
    /// Another reference to the same socket.
    fn clone(&self) -> (r: Pair0)
        ensures
            r@ == self@,
    {
        Pair0 { socket: self.socket.clone() }
    }
}

impl GetSocket for Pair0 {
    open spec fn socket_view(&self) -> nng_socket {
        self@
    }

    fn socket(&self) -> (r: &NngSocket) {
        &self.socket
    }

    fn socket_mut(&mut self) -> (r: &mut NngSocket) {
        &mut self.socket
    }
}

impl Socket for Pair0 {}

/// Half of the pair pattern (version 1).
#[derive(Debug)]
pub struct Pair1 {
    socket: NngSocket,
}

impl View for Pair1 {
    type V = nng_socket;

    closed spec fn view(&self) -> nng_socket {
        self.socket@
    }
}

impl Pair1 {
    /// Open a socket of this protocol; `opener` makes the native call.
    pub fn open<F>(opener: F) -> (r: Result<Pair1>) where
        F: FnOnce(Protocol) -> (i32, nng_socket),

        requires
            call_requires(opener, (Protocol::Pair1,)),
        ensures
            exists|out: (i32, nng_socket)| call_ensures(opener, (Protocol::Pair1,), out) && open_outcome(out, r),
    {
        let opened = nng_open(Protocol::Pair1, opener);
        let ghost out = choose|out: (i32, nng_socket)|
            call_ensures(opener, (Protocol::Pair1,), out) && open_outcome(out, opened);
        let r = match opened {
            Ok(socket) => Ok(Pair1 { socket }),
            Err(e) => Err(e),
        };
        assert(open_outcome(out, r));
        r
    }
}

impl Clone for Pair1 {
    /// Another reference to the same socket.
    fn clone(&self) -> (r: Pair1)
        ensures
            r@ == self@,
    {
        Pair1 { socket: self.socket.clone() }
    }
}

impl GetSocket for Pair1 {
    open spec fn socket_view(&self) -> nng_socket {
        self@
    }

    fn socket(&self) -> (r: &NngSocket) {
        &self.socket
    }

    fn socket_mut(&mut self) -> (r: &mut NngSocket) {
        &mut self.socket
    }
}

impl Socket for Pair1 {}

/// Publish half of the publisher/subscriber pattern.
#[derive(Debug)]
pub struct Pub0 {
    socket: NngSocket,
}

impl View for Pub0 {
    type V = nng_socket;

    closed spec fn view(&self) -> nng_socket {
        self.socket@
    }
}

impl Pub0 {
    /// Open a socket of this protocol; `opener` makes the native call.
    pub fn open<F>(opener: F) -> (r: Result<Pub0>) where
        F: FnOnce(Protocol) -> (i32, nng_socket),

        requires
            call_requires(opener, (Protocol::Pub0,)),
        ensures
            exists|out: (i32, nng_socket)| call_ensures(opener, (Protocol::Pub0,), out) && open_outcome(out, r),
    {
        let opened = nng_open(Protocol::Pub0, opener);
        let ghost out = choose|out: (i32, nng_socket)|
            call_ensures(opener, (Protocol::Pub0,), out) && open_outcome(out, opened);
        let r = match opened {
            Ok(socket) => Ok(Pub0 { socket }),
            Err(e) => Err(e),
        };
        assert(open_outcome(out, r));
        r
    }
}

impl Clone for Pub0 {
    /// Another reference to the same socket.
    fn clone(&self) -> (r: Pub0)
        ensures
            r@ == self@,
    {
        Pub0 { socket: self.socket.clone() }
    }
}

impl GetSocket for Pub0 {
    open spec fn socket_view(&self) -> nng_socket {
        self@
    }

    fn socket(&self) -> (r: &NngSocket) {
        &self.socket
    }

    fn socket_mut(&mut self) -> (r: &mut NngSocket) {
        &mut self.socket
    }
}

impl Socket for Pub0 {}

/// Subscribe half of the publisher/subscriber pattern.
#[derive(Debug)]
pub struct Sub0 {
    socket: NngSocket,
}

impl View for Sub0 {
    type V = nng_socket;

    closed spec fn view(&self) -> nng_socket {
        self.socket@
    }
}

impl Sub0 {
    /// Open a socket of this protocol; `opener` makes the native call.
    pub fn open<F>(opener: F) -> (r: Result<Sub0>) where
        F: FnOnce(Protocol) -> (i32, nng_socket),

        requires
            call_requires(opener, (Protocol::Sub0,)),
        ensures
            exists|out: (i32, nng_socket)| call_ensures(opener, (Protocol::Sub0,), out) && open_outcome(out, r),
    {
        let opened = nng_open(Protocol::Sub0, opener);
        let ghost out = choose|out: (i32, nng_socket)|
            call_ensures(opener, (Protocol::Sub0,), out) && open_outcome(out, opened);
        let r = match opened {
            Ok(socket) => Ok(Sub0 { socket }),
            Err(e) => Err(e),
        };
        assert(open_outcome(out, r));
        r
    }
}

impl Clone for Sub0 {
    /// Another reference to the same socket.
    fn clone(&self) -> (r: Sub0)
        ensures
            r@ == self@,
    {
        Sub0 { socket: self.socket.clone() }
    }
}

impl GetSocket for Sub0 {
    open spec fn socket_view(&self) -> nng_socket {
        self@
    }

    fn socket(&self) -> (r: &NngSocket) {
        &self.socket
    }

    fn socket_mut(&mut self) -> (r: &mut NngSocket) {
        &mut self.socket
    }
}

impl Socket for Sub0 {}

/// Push half of the push/pull ("pipeline") pattern.
#[derive(Debug)]
pub struct Push0 {
    socket: NngSocket,
}

impl View for Push0 {
    type V = nng_socket;

    closed spec fn view(&self) -> nng_socket {
        self.socket@
    }
}

impl Push0 {
    /// Open a socket of this protocol; `opener` makes the native call.
    pub fn open<F>(opener: F) -> (r: Result<Push0>) where
        F: FnOnce(Protocol) -> (i32, nng_socket),

        requires
            call_requires(opener, (Protocol::Push0,)),
        ensures
            exists|out: (i32, nng_socket)| call_ensures(opener, (Protocol::Push0,), out) && open_outcome(out, r),
    {
        let opened = nng_open(Protocol::Push0, opener);
        let ghost out = choose|out: (i32, nng_socket)|
            call_ensures(opener, (Protocol::Push0,), out) && open_outcome(out, opened);
        let r = match opened {
            Ok(socket) => Ok(Push0 { socket }),
            Err(e) => Err(e),
        };
        assert(open_outcome(out, r));
        r
    }
}

impl Clone for Push0 {
    /// Another reference to the same socket.
    fn clone(&self) -> (r: Push0)
        ensures
            r@ == self@,
    {
        Push0 { socket: self.socket.clone() }
    }
}

impl GetSocket for Push0 {
    open spec fn socket_view(&self) -> nng_socket {
        self@
    }

    fn socket(&self) -> (r: &NngSocket) {
        &self.socket
    }

    fn socket_mut(&mut self) -> (r: &mut NngSocket) {
        &mut self.socket
    }
}

impl Socket for Push0 {}

/// Pull half of the push/pull ("pipeline") pattern.
#[derive(Debug)]
pub struct Pull0 {
    socket: NngSocket,
}

impl View for Pull0 {
    type V = nng_socket;

    closed spec fn view(&self) -> nng_socket {
        self.socket@
    }
}

impl Pull0 {
    /// Open a socket of this protocol; `opener` makes the native call.
    pub fn open<F>(opener: F) -> (r: Result<Pull0>) where
        F: FnOnce(Protocol) -> (i32, nng_socket),

        requires
            call_requires(opener, (Protocol::Pull0,)),
        ensures
            exists|out: (i32, nng_socket)| call_ensures(opener, (Protocol::Pull0,), out) && open_outcome(out, r),
    {
        let opened = nng_open(Protocol::Pull0, opener);
        let ghost out = choose|out: (i32, nng_socket)|
            call_ensures(opener, (Protocol::Pull0,), out) && open_outcome(out, opened);
        let r = match opened {
            Ok(socket) => Ok(Pull0 { socket }),
            Err(e) => Err(e),
        };
        assert(open_outcome(out, r));
        r
    }
}

impl Clone for Pull0 {
    /// Another reference to the same socket.
    fn clone(&self) -> (r: Pull0)
        ensures
            r@ == self@,
    {
        Pull0 { socket: self.socket.clone() }
    }
}

impl GetSocket for Pull0 {
    open spec fn socket_view(&self) -> nng_socket {
        self@
    }

    fn socket(&self) -> (r: &NngSocket) {
        &self.socket
    }

    fn socket_mut(&mut self) -> (r: &mut NngSocket) {
        &mut self.socket
    }
}

impl Socket for Pull0 {}

/// Request half of the request/reply pattern.
#[derive(Debug)]
pub struct Req0 {
    socket: NngSocket,
}

impl View for Req0 {
    type V = nng_socket;

    closed spec fn view(&self) -> nng_socket {
        self.socket@
    }
}

impl Req0 {
    /// Open a socket of this protocol; `opener` makes the native call.
    pub fn open<F>(opener: F) -> (r: Result<Req0>) where
        F: FnOnce(Protocol) -> (i32, nng_socket),

        requires
            call_requires(opener, (Protocol::Req0,)),
        ensures
            exists|out: (i32, nng_socket)| call_ensures(opener, (Protocol::Req0,), out) && open_outcome(out, r),
    {
        let opened = nng_open(Protocol::Req0, opener);
        let ghost out = choose|out: (i32, nng_socket)|
            call_ensures(opener, (Protocol::Req0,), out) && open_outcome(out, opened);
        let r = match opened {
            Ok(socket) => Ok(Req0 { socket }),
            Err(e) => Err(e),
        };
        assert(open_outcome(out, r));
        r
    }
}

impl Clone for Req0 {
    /// Another reference to the same socket.
    fn clone(&self) -> (r: Req0)
        ensures
            r@ == self@,
    {
        Req0 { socket: self.socket.clone() }
    }
}

impl GetSocket for Req0 {
    open spec fn socket_view(&self) -> nng_socket {
        self@
    }

    fn socket(&self) -> (r: &NngSocket) {
        &self.socket
    }

    fn socket_mut(&mut self) -> (r: &mut NngSocket) {
        &mut self.socket
    }
}

impl Socket for Req0 {}

/// Reply half of the request/reply pattern.
#[derive(Debug)]
pub struct Rep0 {
    socket: NngSocket,
}

impl View for Rep0 {
    type V = nng_socket;

    closed spec fn view(&self) -> nng_socket {
        self.socket@
    }
}

impl Rep0 {
    /// Open a socket of this protocol; `opener` makes the native call.
    pub fn open<F>(opener: F) -> (r: Result<Rep0>) where
        F: FnOnce(Protocol) -> (i32, nng_socket),

        requires
            call_requires(opener, (Protocol::Rep0,)),
        ensures
            exists|out: (i32, nng_socket)| call_ensures(opener, (Protocol::Rep0,), out) && open_outcome(out, r),
    {
        let opened = nng_open(Protocol::Rep0, opener);
        let ghost out = choose|out: (i32, nng_socket)|
            call_ensures(opener, (Protocol::Rep0,), out) && open_outcome(out, opened);
        let r = match opened {
            Ok(socket) => Ok(Rep0 { socket }),
            Err(e) => Err(e),
        };
        assert(open_outcome(out, r));
        r
    }
}

impl Clone for Rep0 {
    /// Another reference to the same socket.
    fn clone(&self) -> (r: Rep0)
        ensures
            r@ == self@,
    {
        Rep0 { socket: self.socket.clone() }
    }
}

impl GetSocket for Rep0 {
    open spec fn socket_view(&self) -> nng_socket {
        self@
    }

    fn socket(&self) -> (r: &NngSocket) {
        &self.socket
    }

    fn socket_mut(&mut self) -> (r: &mut NngSocket) {
        &mut self.socket
    }
}

impl Socket for Rep0 {}

} // verus!
