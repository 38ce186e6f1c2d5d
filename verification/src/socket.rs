//! Socket basics: flags, socket handles and the outcome of sending.

use vstd::prelude::*;
use crate::result::{error_of, Error, NngErrno, nng_int_to_result};
use crate::sys::{handle_id, id_of_handle, nng_socket, NNG_FLAG_ALLOC, NNG_FLAG_NONBLOCK};

verus! {

/// Flags used when sending and receiving.
#[derive(Clone, Copy, Debug, PartialEq, Eq, Structural)]
pub struct Flags {
    bits: i32,
}

impl View for Flags {
    type V = i32;

    closed spec fn view(&self) -> i32 {
        self.bits
    }
}

impl Default for Flags {
    fn default() -> (r: Flags)
        ensures
            r@ == 0,
    {
        Flags { bits: 0 }
    }
}

impl Flags {
    /// No flag set.
    pub fn empty() -> (r: Flags)
        ensures
            r@ == 0,
    {
        Flags { bits: 0 }
    }

    /// `NNG_FLAG_NONBLOCK`: do not wait.
    pub fn nonblock() -> (r: Flags)
        ensures
            r@ == NNG_FLAG_NONBLOCK,
    {
        Flags { bits: NNG_FLAG_NONBLOCK }
    }

    /// `NNG_FLAG_ALLOC`: the data is memory handed over whole ("zero-copy").
    pub fn zerocopy() -> (r: Flags)
        ensures
            r@ == NNG_FLAG_ALLOC,
    {
        Flags { bits: NNG_FLAG_ALLOC }
    }

    /// The flags as the integer passed to NNG.
    pub fn bits(&self) -> (r: i32)
        ensures
            r == self@,
    {
        self.bits
    }

    /// The flags of both.
    pub fn union(self, other: Flags) -> (r: Flags)
        ensures
            r@ == self@ | other@,
    {
        Flags { bits: self.bits | other.bits }
    }

    /// Whether every flag of `other` is set here.
    pub fn contains(&self, other: Flags) -> (r: bool)
        ensures
            r == (self@ & other@ == other@),
    {
        self.bits & other.bits == other.bits
    }
}

/// Flags used when listening and dialing.
#[derive(Clone, Copy, Debug, PartialEq, Eq, Structural)]
pub struct SocketFlags {
    bits: i32,
}

impl View for SocketFlags {
    type V = i32;

    closed spec fn view(&self) -> i32 {
        self.bits
    }
}

impl Default for SocketFlags {
    fn default() -> (r: SocketFlags)
        ensures
            r@ == 0,
    {
        SocketFlags { bits: 0 }
    }
}

impl SocketFlags {
    /// No flag set.
    pub fn empty() -> (r: SocketFlags)
        ensures
            r@ == 0,
    {
        SocketFlags { bits: 0 }
    }

    /// `NNG_FLAG_NONBLOCK`: do not wait for the connection.
    pub fn nonblock() -> (r: SocketFlags)
        ensures
            r@ == NNG_FLAG_NONBLOCK,
    {
        SocketFlags { bits: NNG_FLAG_NONBLOCK }
    }

    /// The flags as the integer passed to NNG.
    pub fn bits(&self) -> (r: i32)
        ensures
            r == self@,
    {
        self.bits
    }
}

/// The flags of a zero-copy send or receive: the given ones and `ALLOC`.
pub fn zerocopy_flags(flags: Flags) -> (r: i32)
    ensures
        r == flags@ | NNG_FLAG_ALLOC,
{
    flags.union(Flags::zerocopy()).bits()
}

/// A socket.
#[derive(Debug)]
pub struct NngSocket {
    socket: nng_socket,
}

impl View for NngSocket {
    type V = nng_socket;

    closed spec fn view(&self) -> nng_socket {
        self.socket
    }
}

impl NngSocket {
    /// Wrap the handle of an open socket.
    pub fn new(socket: nng_socket) -> (r: NngSocket)
        ensures
            r@ == socket,
    {
        NngSocket { socket }
    }

    /// The underlying handle.
    pub fn nng_socket(&self) -> (r: nng_socket)
        ensures
            r == self@,
    {
        self.socket
    }
}

impl Clone for NngSocket {
    /// Another reference to the same socket.
    fn clone(&self) -> (r: NngSocket)
        ensures
            r@ == self@,
    {
        NngSocket { socket: self.socket }
    }
}

/// Type which exposes an `NngSocket`.
pub trait GetSocket {
    /// The handle of the socket exposed.
    spec fn socket_view(&self) -> nng_socket;

    /// The `NngSocket` exposed.
    fn socket(&self) -> (r: &NngSocket)
        ensures
            r@ == self.socket_view();

    /// The `NngSocket` exposed, for changing.
    fn socket_mut(&mut self) -> (r: &mut NngSocket)
        ensures
            r@ == old(self).socket_view();

    /// The handle of the socket exposed.
    fn nng_socket(&self) -> (r: nng_socket)
        ensures
            r == self.socket_view(),
    {
        self.socket().nng_socket()
    }
}

impl GetSocket for NngSocket {
    open spec fn socket_view(&self) -> nng_socket {
        self@
    }

    fn socket(&self) -> (r: &NngSocket) {
        self
    }

    fn socket_mut(&mut self) -> (r: &mut NngSocket) {
        self
    }
}

/// Type which is a socket.
pub trait Socket: GetSocket + Sized {
    /// Run `setup` on the socket and hand the socket back where it
    /// succeeds; its error where it fails.
    fn with<T>(self, setup: T) -> (r: Result<Self, Error>) where T: FnOnce(&mut Self) -> Result<&mut Self, Error>
        requires
            forall|s: &mut Self| #[trigger] call_requires(setup, (s,)),
        ensures
            exists|s: &mut Self, out: Result<&mut Self, Error>|
                call_ensures(setup, (s,), out) && *s == self && match r {
                    Ok(socket) => out is Ok && socket == *final(s),
                    Err(e) => out == Err::<&mut Self, Error>(e),
                },
    {
        let mut socket = self;
        match setup(&mut socket) {
            Ok(_) => Ok(socket),
            Err(e) => Err(e),
        }
    }
}

impl Socket for NngSocket {}

/// A socket handle that owns nothing: it may be invalid or closed.
#[derive(Debug)]
pub struct UnsafeSocket {
    socket: nng_socket,
}

impl View for UnsafeSocket {
    type V = nng_socket;

    closed spec fn view(&self) -> nng_socket {
        self.socket
    }
}

impl UnsafeSocket {
    pub fn new(socket: nng_socket) -> (r: UnsafeSocket)
        ensures
            r@ == socket,
    {
        UnsafeSocket { socket }
    }

    /// The id of the socket, or -1 where the handle names none.
    pub fn id(&self) -> (r: i32)
        ensures
            r == handle_id(self@.id),
    {
        id_of_handle(self.socket.id)
    }
}

/// A failed send: the error, and the message handed back to the caller.
#[derive(Debug)]
pub struct SendError<T> {
    pub error: Error,
    pub message: T,
}

impl<T> SendError<T> {
    /// The message that was not sent.
    pub fn into_inner(self) -> (r: T)
        ensures
            r == self.message,
    {
        self.message
    }
}

/// The outcome of a send whose native call returned `res`: on failure the
/// message comes back with the error.
pub fn send_result<T>(res: i32, message: T) -> (r: Result<(), SendError<T>>)
    ensures
        res == 0 ==> r is Ok,
        res != 0 ==> (r matches Err(e) && e.error == error_of(res) && e.message == message),
{
    match nng_int_to_result(res) {
        Ok(()) => Ok(()),
        Err(error) => Err(SendError { error, message }),
    }
}

/// The outcome of closing a socket whose native close (`nng_close`)
/// returned `res`: a socket that was already closed is no error.
pub fn close_result(res: i32) -> (r: Result<(), Error>)
    ensures
        r == (if res == 0 || error_of(res) == Error::Errno(NngErrno::ECLOSED) {
            Ok::<(), Error>(())
        } else {
            Err::<(), Error>(error_of(res))
        }),
{
    match nng_int_to_result(res) {
        Ok(()) => Ok(()),
        Err(Error::Errno(NngErrno::ECLOSED)) => Ok(()),
        Err(error) => Err(error),
    }
}

} // verus!
