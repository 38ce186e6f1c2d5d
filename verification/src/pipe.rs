//! Pipes: the individual connections of a socket.

use vstd::prelude::*;
use crate::dialer::UnsafeDialer;
use crate::listener::UnsafeListener;
use crate::msg::NngMsg;
use crate::result::EnumFromIntError;
use crate::socket::UnsafeSocket;
use crate::sys::{handle_id, id_of_handle, nng_dialer, nng_listener, nng_pipe, nng_socket};

verus! {

/// Pipe events that can occur on sockets.
#[derive(Clone, Copy, Debug, PartialEq, Eq, Structural)]
pub enum NngPipeEv {
    AddPre,
    AddPost,
    RemPost,
}

/// The number the native library gives each pipe event.
pub open spec fn pipe_event_code(ev: NngPipeEv) -> u32 {
    match ev {
        NngPipeEv::AddPre => 0,
        NngPipeEv::AddPost => 1,
        NngPipeEv::RemPost => 2,
    }
}

impl NngPipeEv {
    /// Converts a pipe event number into an `NngPipeEv`.
    pub fn try_from(value: u32) -> (r: Result<NngPipeEv, EnumFromIntError>)
        ensures
            r matches Ok(ev) ==> pipe_event_code(ev) == value,
            r is Err ==> value > 2 && r == Err::<NngPipeEv, EnumFromIntError>(
                EnumFromIntError(value as i32)),
    {
        match value {
            0 => Ok(NngPipeEv::AddPre),
            1 => Ok(NngPipeEv::AddPost),
            2 => Ok(NngPipeEv::RemPost),
            _ => Err(EnumFromIntError(value as i32)),
        }
    }
}

/// Handle to a pipe.
#[derive(Debug)]
pub struct NngPipe {
    pipe: nng_pipe,
}

impl View for NngPipe {
    type V = nng_pipe;

    closed spec fn view(&self) -> nng_pipe {
        self.pipe
    }
}

impl NngPipe {
    /// The pipe associated with a message, if there is one: a pipe whose
    /// id is positive.
    pub fn new(message: &NngMsg) -> (r: Option<NngPipe>)
        ensures
            handle_id(message@.pipe.id) <= 0 ==> r is None,
            handle_id(message@.pipe.id) > 0 ==> (r matches Some(p) && p@ == message@.pipe),
    {
        let pipe = message.pipe_handle();
        let id: i32 = id_of_handle(pipe.id);
        if id <= 0 {
            None
        } else {
            Some(NngPipe { pipe })
        }
    }

    /// The id of the pipe.
    pub fn id(&self) -> (r: i32)
        ensures
            r == handle_id(self@.id),
    {
        id_of_handle(self.pipe.id)
    }

    /// The underlying handle.
    pub fn nng_pipe(&self) -> (r: nng_pipe)
        ensures
            r == self@,
    {
        self.pipe
    }

    /// The socket that owns the pipe.  `query` makes the native call
    /// (`nng_pipe_socket`) with the pipe's handle; a socket whose id is -1
    /// means that there is none.
    pub fn socket<F>(&self, query: F) -> (r: Option<UnsafeSocket>) where F: FnOnce(nng_pipe) -> nng_socket,
        requires
            call_requires(query, (self@,)),
        ensures
            exists|h: nng_socket|
                call_ensures(query, (self@,), h) && if handle_id(h.id) == -1 {
                    r is None
                } else {
                    r matches Some(s) && s@ == h
                },
    {
        let socket = UnsafeSocket::new(query(self.pipe));
        if socket.id() == -1 {
            None
        } else {
            Some(socket)
        }
    }

    /// The dialer that created the pipe.  `query` makes the native call
    /// (`nng_pipe_dialer`) with the pipe's handle; a dialer whose id is -1
    /// means that the pipe was not created by a dialer.
    pub fn dialer<F>(&self, query: F) -> (r: Option<UnsafeDialer>) where F: FnOnce(nng_pipe) -> nng_dialer,
        requires
            call_requires(query, (self@,)),
        ensures
            exists|h: nng_dialer|
                call_ensures(query, (self@,), h) && if handle_id(h.id) == -1 {
                    r is None
                } else {
                    r matches Some(d) && d@ == h
                },
    {
        let dialer = UnsafeDialer::new(query(self.pipe));
        if dialer.id() == -1 {
            None
        } else {
            Some(dialer)
        }
    }

    /// The listener that created the pipe.  `query` makes the native call
    /// (`nng_pipe_listener`) with the pipe's handle; a listener whose id is
    /// -1 means that the pipe was not created by a listener.
    pub fn listener<F>(&self, query: F) -> (r: Option<UnsafeListener>) where F: FnOnce(nng_pipe) -> nng_listener,
        requires
            call_requires(query, (self@,)),
        ensures
            exists|h: nng_listener|
                call_ensures(query, (self@,), h) && if handle_id(h.id) == -1 {
                    r is None
                } else {
                    r matches Some(l) && l@ == h
                },
    {
        let listener = UnsafeListener::new(query(self.pipe));
        if listener.id() == -1 {
            None
        } else {
            Some(listener)
        }
    }
}

} // verus!
