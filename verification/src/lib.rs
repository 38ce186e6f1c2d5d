//! Verified core of a high-level wrapper around NNG (nanomsg-next-gen):
//! error codes, messages, message builders, socket handles, protocol
//! factories and the state machines that drive asynchronous I/O.
#![allow(non_camel_case_types)]

pub mod asyncio;
pub mod bytes;
pub mod ctx;
pub mod dialer;
pub mod factory;
pub mod listener;
pub mod mem;
pub mod msg;
pub mod msgbuilder;
pub mod nng_channel;
pub mod pipe;
pub mod protocol;
pub mod result;
pub mod socket;
pub mod sys;

pub use crate::mem::NngString;
pub use crate::result::{flatten_result, nng_int_to_result, EnumFromIntError, Error, NngErrno, Result};
pub use crate::socket::{Flags, GetSocket, NngSocket, SendError, Socket, SocketFlags, UnsafeSocket};
