//! The latest version of all protocols.

use vstd::prelude::*;
use crate::protocol::{open_outcome, Protocol, Pair1, Pub0, Pull0, Push0, Rep0, Req0, Sub0};
use crate::result::Result;
use crate::sys::nng_socket;

verus! {

/// The latest version of all protocols.  Each method opens a socket; `opener` makes the native call for
/// the protocol it is given.
#[derive(Debug)]
pub struct ProtocolFactory {}

impl Default for ProtocolFactory {
    fn default() -> (r: ProtocolFactory) {
        ProtocolFactory {}
    }
}

impl ProtocolFactory {
    /// Open a request socket (`Req0`).
    pub fn requester_open<F>(&self, opener: F) -> (r: Result<Req0>) where
        F: FnOnce(Protocol) -> (i32, nng_socket),

        requires
            call_requires(opener, (Protocol::Req0,)),
        ensures
            exists|out: (i32, nng_socket)| call_ensures(opener, (Protocol::Req0,), out) && open_outcome(out, r),
    {
        Req0::open(opener)
    }

    /// Open a reply socket (`Rep0`).
    pub fn replier_open<F>(&self, opener: F) -> (r: Result<Rep0>) where
        F: FnOnce(Protocol) -> (i32, nng_socket),

        requires
            call_requires(opener, (Protocol::Rep0,)),
        ensures
            exists|out: (i32, nng_socket)| call_ensures(opener, (Protocol::Rep0,), out) && open_outcome(out, r),
    {
        Rep0::open(opener)
    }

    /// Open a publish socket (`Pub0`).
    pub fn publisher_open<F>(&self, opener: F) -> (r: Result<Pub0>) where
        F: FnOnce(Protocol) -> (i32, nng_socket),

        requires
            call_requires(opener, (Protocol::Pub0,)),
        ensures
            exists|out: (i32, nng_socket)| call_ensures(opener, (Protocol::Pub0,), out) && open_outcome(out, r),
    {
        Pub0::open(opener)
    }

    /// Open a subscribe socket (`Sub0`).
    pub fn subscriber_open<F>(&self, opener: F) -> (r: Result<Sub0>) where
        F: FnOnce(Protocol) -> (i32, nng_socket),

        requires
            call_requires(opener, (Protocol::Sub0,)),
        ensures
            exists|out: (i32, nng_socket)| call_ensures(opener, (Protocol::Sub0,), out) && open_outcome(out, r),
    {
        Sub0::open(opener)
    }

    /// Open a push socket (`Push0`).
    pub fn pusher_open<F>(&self, opener: F) -> (r: Result<Push0>) where
        F: FnOnce(Protocol) -> (i32, nng_socket),

        requires
            call_requires(opener, (Protocol::Push0,)),
        ensures
            exists|out: (i32, nng_socket)| call_ensures(opener, (Protocol::Push0,), out) && open_outcome(out, r),
    {
        Push0::open(opener)
    }

    /// Open a pull socket (`Pull0`).
    pub fn puller_open<F>(&self, opener: F) -> (r: Result<Pull0>) where
        F: FnOnce(Protocol) -> (i32, nng_socket),

        requires
            call_requires(opener, (Protocol::Pull0,)),
        ensures
            exists|out: (i32, nng_socket)| call_ensures(opener, (Protocol::Pull0,), out) && open_outcome(out, r),
    {
        Pull0::open(opener)
    }

    /// Open a pair socket (`Pair1`).
    pub fn pair_open<F>(&self, opener: F) -> (r: Result<Pair1>) where
        F: FnOnce(Protocol) -> (i32, nng_socket),

        requires
            call_requires(opener, (Protocol::Pair1,)),
        ensures
            exists|out: (i32, nng_socket)| call_ensures(opener, (Protocol::Pair1,), out) && open_outcome(out, r),
    {
        Pair1::open(opener)
    }
}

} // verus!
