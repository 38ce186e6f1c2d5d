//! Plain values exchanged with the native NNG library: error numbers,
//! statistic kinds, units, pipe events, flags and object handles.

use vstd::prelude::*;

verus! {

pub const NNG_EINTR: i32 = 1;
pub const NNG_ENOMEM: i32 = 2;
pub const NNG_EINVAL: i32 = 3;
pub const NNG_EBUSY: i32 = 4;
pub const NNG_ETIMEDOUT: i32 = 5;
pub const NNG_ECONNREFUSED: i32 = 6;
pub const NNG_ECLOSED: i32 = 7;
pub const NNG_EAGAIN: i32 = 8;
pub const NNG_ENOTSUP: i32 = 9;
pub const NNG_EADDRINUSE: i32 = 10;
pub const NNG_ESTATE: i32 = 11;
pub const NNG_ENOENT: i32 = 12;
pub const NNG_EPROTO: i32 = 13;
pub const NNG_EUNREACHABLE: i32 = 14;
pub const NNG_EADDRINVAL: i32 = 15;
pub const NNG_EPERM: i32 = 16;
pub const NNG_EMSGSIZE: i32 = 17;
pub const NNG_ECONNABORTED: i32 = 18;
pub const NNG_ECONNRESET: i32 = 19;
pub const NNG_ECANCELED: i32 = 20;
pub const NNG_ENOFILES: i32 = 21;
pub const NNG_ENOSPC: i32 = 22;
pub const NNG_EEXIST: i32 = 23;
pub const NNG_EREADONLY: i32 = 24;
pub const NNG_EWRITEONLY: i32 = 25;
pub const NNG_ECRYPTO: i32 = 26;
pub const NNG_EPEERAUTH: i32 = 27;
pub const NNG_ENOARG: i32 = 28;
pub const NNG_EAMBIGUOUS: i32 = 29;
pub const NNG_EBADTYPE: i32 = 30;
pub const NNG_ECONNSHUT: i32 = 31;
pub const NNG_EINTERNAL: i32 = 1000;
/// Flag bit marking an error number that carries a system `errno`.
pub const NNG_ESYSERR: i32 = 0x10000000;
/// Flag bit marking an error number that carries a transport error.
pub const NNG_ETRANERR: i32 = 0x20000000;

/// The numbers NNG gives the kinds of statistic.
pub const NNG_STAT_SCOPE: i32 = 0;
pub const NNG_STAT_LEVEL: i32 = 1;
pub const NNG_STAT_COUNTER: i32 = 2;
pub const NNG_STAT_STRING: i32 = 3;
pub const NNG_STAT_BOOLEAN: i32 = 4;
pub const NNG_STAT_ID: i32 = 5;

/// The numbers NNG gives the units of a statistic.
pub const NNG_UNIT_NONE: i32 = 0;
pub const NNG_UNIT_BYTES: i32 = 1;
pub const NNG_UNIT_MESSAGES: i32 = 2;
pub const NNG_UNIT_MILLIS: i32 = 3;
pub const NNG_UNIT_EVENTS: i32 = 4;

pub const NNG_FLAG_ALLOC: i32 = 1;
pub const NNG_FLAG_NONBLOCK: i32 = 2;

/// Error numbers of the native library.
#[derive(Clone, Copy, Debug, PartialEq, Eq, Structural)]
pub enum nng_errno_enum {
    NNG_EINTR,
    NNG_ENOMEM,
    NNG_EINVAL,
    NNG_EBUSY,
    NNG_ETIMEDOUT,
    NNG_ECONNREFUSED,
    NNG_ECLOSED,
    NNG_EAGAIN,
    NNG_ENOTSUP,
    NNG_EADDRINUSE,
    NNG_ESTATE,
    NNG_ENOENT,
    NNG_EPROTO,
    NNG_EUNREACHABLE,
    NNG_EADDRINVAL,
    NNG_EPERM,
    NNG_EMSGSIZE,
    NNG_ECONNABORTED,
    NNG_ECONNRESET,
    NNG_ECANCELED,
    NNG_ENOFILES,
    NNG_ENOSPC,
    NNG_EEXIST,
    NNG_EREADONLY,
    NNG_EWRITEONLY,
    NNG_ECRYPTO,
    NNG_EPEERAUTH,
    NNG_ENOARG,
    NNG_EAMBIGUOUS,
    NNG_EBADTYPE,
    NNG_ECONNSHUT,
    NNG_EINTERNAL,
    NNG_ESYSERR,
    NNG_ETRANERR,
}

/// The number the native library gives each error.
pub open spec fn errno_enum_code(e: nng_errno_enum) -> i32 {
    match e {
        nng_errno_enum::NNG_EINTR => 1,
        nng_errno_enum::NNG_ENOMEM => 2,
        nng_errno_enum::NNG_EINVAL => 3,
        nng_errno_enum::NNG_EBUSY => 4,
        nng_errno_enum::NNG_ETIMEDOUT => 5,
        nng_errno_enum::NNG_ECONNREFUSED => 6,
        nng_errno_enum::NNG_ECLOSED => 7,
        nng_errno_enum::NNG_EAGAIN => 8,
        nng_errno_enum::NNG_ENOTSUP => 9,
        nng_errno_enum::NNG_EADDRINUSE => 10,
        nng_errno_enum::NNG_ESTATE => 11,
        nng_errno_enum::NNG_ENOENT => 12,
        nng_errno_enum::NNG_EPROTO => 13,
        nng_errno_enum::NNG_EUNREACHABLE => 14,
        nng_errno_enum::NNG_EADDRINVAL => 15,
        nng_errno_enum::NNG_EPERM => 16,
        nng_errno_enum::NNG_EMSGSIZE => 17,
        nng_errno_enum::NNG_ECONNABORTED => 18,
        nng_errno_enum::NNG_ECONNRESET => 19,
        nng_errno_enum::NNG_ECANCELED => 20,
        nng_errno_enum::NNG_ENOFILES => 21,
        nng_errno_enum::NNG_ENOSPC => 22,
        nng_errno_enum::NNG_EEXIST => 23,
        nng_errno_enum::NNG_EREADONLY => 24,
        nng_errno_enum::NNG_EWRITEONLY => 25,
        nng_errno_enum::NNG_ECRYPTO => 26,
        nng_errno_enum::NNG_EPEERAUTH => 27,
        nng_errno_enum::NNG_ENOARG => 28,
        nng_errno_enum::NNG_EAMBIGUOUS => 29,
        nng_errno_enum::NNG_EBADTYPE => 30,
        nng_errno_enum::NNG_ECONNSHUT => 31,
        nng_errno_enum::NNG_EINTERNAL => 1000,
        nng_errno_enum::NNG_ESYSERR => 0x10000000,
        nng_errno_enum::NNG_ETRANERR => 0x20000000,
    }
}

impl nng_errno_enum {
    /// The error's number.
    pub fn code(&self) -> (r: i32)
        ensures
            r == errno_enum_code(*self),
    {
        match self {
            nng_errno_enum::NNG_EINTR => 1,
            nng_errno_enum::NNG_ENOMEM => 2,
            nng_errno_enum::NNG_EINVAL => 3,
            nng_errno_enum::NNG_EBUSY => 4,
            nng_errno_enum::NNG_ETIMEDOUT => 5,
            nng_errno_enum::NNG_ECONNREFUSED => 6,
            nng_errno_enum::NNG_ECLOSED => 7,
            nng_errno_enum::NNG_EAGAIN => 8,
            nng_errno_enum::NNG_ENOTSUP => 9,
            nng_errno_enum::NNG_EADDRINUSE => 10,
            nng_errno_enum::NNG_ESTATE => 11,
            nng_errno_enum::NNG_ENOENT => 12,
            nng_errno_enum::NNG_EPROTO => 13,
            nng_errno_enum::NNG_EUNREACHABLE => 14,
            nng_errno_enum::NNG_EADDRINVAL => 15,
            nng_errno_enum::NNG_EPERM => 16,
            nng_errno_enum::NNG_EMSGSIZE => 17,
            nng_errno_enum::NNG_ECONNABORTED => 18,
            nng_errno_enum::NNG_ECONNRESET => 19,
            nng_errno_enum::NNG_ECANCELED => 20,
            nng_errno_enum::NNG_ENOFILES => 21,
            nng_errno_enum::NNG_ENOSPC => 22,
            nng_errno_enum::NNG_EEXIST => 23,
            nng_errno_enum::NNG_EREADONLY => 24,
            nng_errno_enum::NNG_EWRITEONLY => 25,
            nng_errno_enum::NNG_ECRYPTO => 26,
            nng_errno_enum::NNG_EPEERAUTH => 27,
            nng_errno_enum::NNG_ENOARG => 28,
            nng_errno_enum::NNG_EAMBIGUOUS => 29,
            nng_errno_enum::NNG_EBADTYPE => 30,
            nng_errno_enum::NNG_ECONNSHUT => 31,
            nng_errno_enum::NNG_EINTERNAL => 1000,
            nng_errno_enum::NNG_ESYSERR => 0x10000000,
            nng_errno_enum::NNG_ETRANERR => 0x20000000,
        }
    }

    /// Converts a number returned by the native library into an error.
    /// `NNG_ECONNSHUT` is not recognised and gives `None`, like any
    /// number that names no error.
    pub fn from_i32(value: i32) -> (r: Option<nng_errno_enum>)
        ensures
            r matches Some(e) ==> errno_enum_code(e) == value && e != nng_errno_enum::NNG_ECONNSHUT,
            r is None ==> forall|e: nng_errno_enum|
                e != nng_errno_enum::NNG_ECONNSHUT ==> errno_enum_code(e) != value,
    {
        match value {
            1 => Some(nng_errno_enum::NNG_EINTR),
            2 => Some(nng_errno_enum::NNG_ENOMEM),
            3 => Some(nng_errno_enum::NNG_EINVAL),
            4 => Some(nng_errno_enum::NNG_EBUSY),
            5 => Some(nng_errno_enum::NNG_ETIMEDOUT),
            6 => Some(nng_errno_enum::NNG_ECONNREFUSED),
            7 => Some(nng_errno_enum::NNG_ECLOSED),
            8 => Some(nng_errno_enum::NNG_EAGAIN),
            9 => Some(nng_errno_enum::NNG_ENOTSUP),
            10 => Some(nng_errno_enum::NNG_EADDRINUSE),
            11 => Some(nng_errno_enum::NNG_ESTATE),
            12 => Some(nng_errno_enum::NNG_ENOENT),
            13 => Some(nng_errno_enum::NNG_EPROTO),
            14 => Some(nng_errno_enum::NNG_EUNREACHABLE),
            15 => Some(nng_errno_enum::NNG_EADDRINVAL),
            16 => Some(nng_errno_enum::NNG_EPERM),
            17 => Some(nng_errno_enum::NNG_EMSGSIZE),
            18 => Some(nng_errno_enum::NNG_ECONNABORTED),
            19 => Some(nng_errno_enum::NNG_ECONNRESET),
            20 => Some(nng_errno_enum::NNG_ECANCELED),
            21 => Some(nng_errno_enum::NNG_ENOFILES),
            22 => Some(nng_errno_enum::NNG_ENOSPC),
            23 => Some(nng_errno_enum::NNG_EEXIST),
            24 => Some(nng_errno_enum::NNG_EREADONLY),
            25 => Some(nng_errno_enum::NNG_EWRITEONLY),
            26 => Some(nng_errno_enum::NNG_ECRYPTO),
            27 => Some(nng_errno_enum::NNG_EPEERAUTH),
            28 => Some(nng_errno_enum::NNG_ENOARG),
            29 => Some(nng_errno_enum::NNG_EAMBIGUOUS),
            30 => Some(nng_errno_enum::NNG_EBADTYPE),
            1000 => Some(nng_errno_enum::NNG_EINTERNAL),
            0x10000000 => Some(nng_errno_enum::NNG_ESYSERR),
            0x20000000 => Some(nng_errno_enum::NNG_ETRANERR),
            _ => None,
        }
    }
}


/// Kinds of statistic.
#[derive(Clone, Copy, Debug, PartialEq, Eq, Structural)]
pub enum nng_stat_type_enum {
    NNG_STAT_SCOPE,
    NNG_STAT_LEVEL,
    NNG_STAT_COUNTER,
    NNG_STAT_STRING,
    NNG_STAT_BOOLEAN,
    NNG_STAT_ID,
}

/// The number the native library gives each kind of statistic.
pub open spec fn stat_type_code(t: nng_stat_type_enum) -> i32 {
    match t {
        nng_stat_type_enum::NNG_STAT_SCOPE => 0,
        nng_stat_type_enum::NNG_STAT_LEVEL => 1,
        nng_stat_type_enum::NNG_STAT_COUNTER => 2,
        nng_stat_type_enum::NNG_STAT_STRING => 3,
        nng_stat_type_enum::NNG_STAT_BOOLEAN => 4,
        nng_stat_type_enum::NNG_STAT_ID => 5,
    }
}

impl nng_stat_type_enum {
    /// Converts the number returned by `nng_stat_type` into a kind of statistic.
    pub fn from_i32(value: i32) -> (r: Option<nng_stat_type_enum>)
        ensures
            r matches Some(t) ==> stat_type_code(t) == value,
            r is None ==> forall|t: nng_stat_type_enum| stat_type_code(t) != value,
    {
        match value {
            0 => Some(nng_stat_type_enum::NNG_STAT_SCOPE),
            1 => Some(nng_stat_type_enum::NNG_STAT_LEVEL),
            2 => Some(nng_stat_type_enum::NNG_STAT_COUNTER),
            3 => Some(nng_stat_type_enum::NNG_STAT_STRING),
            4 => Some(nng_stat_type_enum::NNG_STAT_BOOLEAN),
            5 => Some(nng_stat_type_enum::NNG_STAT_ID),
            _ => None,
        }
    }
}

/// Units of a statistic.
#[derive(Clone, Copy, Debug, PartialEq, Eq, Structural)]
pub enum nng_unit_enum {
    NNG_UNIT_NONE,
    NNG_UNIT_BYTES,
    NNG_UNIT_MESSAGES,
    NNG_UNIT_MILLIS,
    NNG_UNIT_EVENTS,
}

/// The number the native library gives each unit.
pub open spec fn unit_code(u: nng_unit_enum) -> i32 {
    match u {
        nng_unit_enum::NNG_UNIT_NONE => 0,
        nng_unit_enum::NNG_UNIT_BYTES => 1,
        nng_unit_enum::NNG_UNIT_MESSAGES => 2,
        nng_unit_enum::NNG_UNIT_MILLIS => 3,
        nng_unit_enum::NNG_UNIT_EVENTS => 4,
    }
}

impl nng_unit_enum {
    /// Converts the number returned by `nng_stat_unit` into a unit.
    pub fn from_i32(value: i32) -> (r: Option<nng_unit_enum>)
        ensures
            r matches Some(u) ==> unit_code(u) == value,
            r is None ==> forall|u: nng_unit_enum| unit_code(u) != value,
    {
        match value {
            0 => Some(nng_unit_enum::NNG_UNIT_NONE),
            1 => Some(nng_unit_enum::NNG_UNIT_BYTES),
            2 => Some(nng_unit_enum::NNG_UNIT_MESSAGES),
            3 => Some(nng_unit_enum::NNG_UNIT_MILLIS),
            4 => Some(nng_unit_enum::NNG_UNIT_EVENTS),
            _ => None,
        }
    }
}

/// Events that happen to the pipes of a socket.
#[derive(Clone, Copy, Debug, PartialEq, Eq, Structural)]
pub enum nng_pipe_ev {
    NNG_PIPE_EV_ADD_PRE,
    NNG_PIPE_EV_ADD_POST,
    NNG_PIPE_EV_REM_POST,
}

/// The number the native library gives each pipe event.
pub open spec fn pipe_ev_code(ev: nng_pipe_ev) -> i32 {
    match ev {
        nng_pipe_ev::NNG_PIPE_EV_ADD_PRE => 0,
        nng_pipe_ev::NNG_PIPE_EV_ADD_POST => 1,
        nng_pipe_ev::NNG_PIPE_EV_REM_POST => 2,
    }
}

impl nng_pipe_ev {
    /// The event's number.
    pub fn code(&self) -> (r: i32)
        ensures
            r == pipe_ev_code(*self),
    {
        match self {
            nng_pipe_ev::NNG_PIPE_EV_ADD_PRE => 0,
            nng_pipe_ev::NNG_PIPE_EV_ADD_POST => 1,
            nng_pipe_ev::NNG_PIPE_EV_REM_POST => 2,
        }
    }

    /// Converts a number into a pipe event.
    pub fn from_i32(value: i32) -> (r: Option<nng_pipe_ev>)
        ensures
            r matches Some(ev) ==> pipe_ev_code(ev) == value,
            r is None ==> forall|ev: nng_pipe_ev| pipe_ev_code(ev) != value,
    {
        match value {
            0 => Some(nng_pipe_ev::NNG_PIPE_EV_ADD_PRE),
            1 => Some(nng_pipe_ev::NNG_PIPE_EV_ADD_POST),
            2 => Some(nng_pipe_ev::NNG_PIPE_EV_REM_POST),
            _ => None,
        }
    }
}

/// The number the native library reports as the id of a handle:
/// the handle's id where it is positive as an `int`, and -1 otherwise.
pub open spec fn handle_id(id: u32) -> i32 {
    if 0 < id && id <= 0x7fff_ffff {
        id as i32
    } else {
        -1i32
    }
}

/// Computes `handle_id`.
pub fn id_of_handle(id: u32) -> (r: i32)
    ensures
        r == handle_id(id),
{
    if 0 < id && id <= 0x7fff_ffff {
        id as i32
    } else {
        -1
    }
}

/// Handle to a native socket.
#[derive(Clone, Copy, Debug, PartialEq, Eq, Structural, Default)]
pub struct nng_socket {
    pub id: u32,
}

/// Handle to a native pipe (one connection of a socket).
#[derive(Clone, Copy, Debug, PartialEq, Eq, Structural, Default)]
pub struct nng_pipe {
    pub id: u32,
}

/// Handle to a native protocol context.
#[derive(Clone, Copy, Debug, PartialEq, Eq, Structural, Default)]
pub struct nng_ctx {
    pub id: u32,
}

/// Handle to a native dialer.
#[derive(Clone, Copy, Debug, PartialEq, Eq, Structural, Default)]
pub struct nng_dialer {
    pub id: u32,
}

/// Handle to a native listener.
#[derive(Clone, Copy, Debug, PartialEq, Eq, Structural, Default)]
pub struct nng_listener {
    pub id: u32,
}

/// Each `nng_errno_enum` variant stands for the NNG error number of the
/// same name, the same number as the `NngErrno` of that name.
pub proof fn lemma_errno_enum_codes_are_nng_numbers()
    ensures
        errno_enum_code(nng_errno_enum::NNG_EINTR) == NNG_EINTR,
        errno_enum_code(nng_errno_enum::NNG_ENOMEM) == NNG_ENOMEM,
        errno_enum_code(nng_errno_enum::NNG_EINVAL) == NNG_EINVAL,
        errno_enum_code(nng_errno_enum::NNG_EBUSY) == NNG_EBUSY,
        errno_enum_code(nng_errno_enum::NNG_ETIMEDOUT) == NNG_ETIMEDOUT,
        errno_enum_code(nng_errno_enum::NNG_ECONNREFUSED) == NNG_ECONNREFUSED,
        errno_enum_code(nng_errno_enum::NNG_ECLOSED) == NNG_ECLOSED,
        errno_enum_code(nng_errno_enum::NNG_EAGAIN) == NNG_EAGAIN,
        errno_enum_code(nng_errno_enum::NNG_ENOTSUP) == NNG_ENOTSUP,
        errno_enum_code(nng_errno_enum::NNG_EADDRINUSE) == NNG_EADDRINUSE,
        errno_enum_code(nng_errno_enum::NNG_ESTATE) == NNG_ESTATE,
        errno_enum_code(nng_errno_enum::NNG_ENOENT) == NNG_ENOENT,
        errno_enum_code(nng_errno_enum::NNG_EPROTO) == NNG_EPROTO,
        errno_enum_code(nng_errno_enum::NNG_EUNREACHABLE) == NNG_EUNREACHABLE,
        errno_enum_code(nng_errno_enum::NNG_EADDRINVAL) == NNG_EADDRINVAL,
        errno_enum_code(nng_errno_enum::NNG_EPERM) == NNG_EPERM,
        errno_enum_code(nng_errno_enum::NNG_EMSGSIZE) == NNG_EMSGSIZE,
        errno_enum_code(nng_errno_enum::NNG_ECONNABORTED) == NNG_ECONNABORTED,
        errno_enum_code(nng_errno_enum::NNG_ECONNRESET) == NNG_ECONNRESET,
        errno_enum_code(nng_errno_enum::NNG_ECANCELED) == NNG_ECANCELED,
        errno_enum_code(nng_errno_enum::NNG_ENOFILES) == NNG_ENOFILES,
        errno_enum_code(nng_errno_enum::NNG_ENOSPC) == NNG_ENOSPC,
        errno_enum_code(nng_errno_enum::NNG_EEXIST) == NNG_EEXIST,
        errno_enum_code(nng_errno_enum::NNG_EREADONLY) == NNG_EREADONLY,
        errno_enum_code(nng_errno_enum::NNG_EWRITEONLY) == NNG_EWRITEONLY,
        errno_enum_code(nng_errno_enum::NNG_ECRYPTO) == NNG_ECRYPTO,
        errno_enum_code(nng_errno_enum::NNG_EPEERAUTH) == NNG_EPEERAUTH,
        errno_enum_code(nng_errno_enum::NNG_ENOARG) == NNG_ENOARG,
        errno_enum_code(nng_errno_enum::NNG_EAMBIGUOUS) == NNG_EAMBIGUOUS,
        errno_enum_code(nng_errno_enum::NNG_EBADTYPE) == NNG_EBADTYPE,
        errno_enum_code(nng_errno_enum::NNG_ECONNSHUT) == NNG_ECONNSHUT,
        errno_enum_code(nng_errno_enum::NNG_EINTERNAL) == NNG_EINTERNAL,
        errno_enum_code(nng_errno_enum::NNG_ESYSERR) == NNG_ESYSERR,
        errno_enum_code(nng_errno_enum::NNG_ETRANERR) == NNG_ETRANERR,
        errno_enum_code(nng_errno_enum::NNG_EINTR) == crate::result::errno_code(crate::result::NngErrno::EINTR),
        errno_enum_code(nng_errno_enum::NNG_ENOMEM) == crate::result::errno_code(crate::result::NngErrno::ENOMEM),
        errno_enum_code(nng_errno_enum::NNG_EINVAL) == crate::result::errno_code(crate::result::NngErrno::EINVAL),
        errno_enum_code(nng_errno_enum::NNG_EBUSY) == crate::result::errno_code(crate::result::NngErrno::EBUSY),
        errno_enum_code(nng_errno_enum::NNG_ETIMEDOUT) == crate::result::errno_code(crate::result::NngErrno::ETIMEDOUT),
        errno_enum_code(nng_errno_enum::NNG_ECONNREFUSED) == crate::result::errno_code(crate::result::NngErrno::ECONNREFUSED),
        errno_enum_code(nng_errno_enum::NNG_ECLOSED) == crate::result::errno_code(crate::result::NngErrno::ECLOSED),
        errno_enum_code(nng_errno_enum::NNG_EAGAIN) == crate::result::errno_code(crate::result::NngErrno::EAGAIN),
        errno_enum_code(nng_errno_enum::NNG_ENOTSUP) == crate::result::errno_code(crate::result::NngErrno::ENOTSUP),
        errno_enum_code(nng_errno_enum::NNG_EADDRINUSE) == crate::result::errno_code(crate::result::NngErrno::EADDRINUSE),
        errno_enum_code(nng_errno_enum::NNG_ESTATE) == crate::result::errno_code(crate::result::NngErrno::ESTATE),
        errno_enum_code(nng_errno_enum::NNG_ENOENT) == crate::result::errno_code(crate::result::NngErrno::ENOENT),
        errno_enum_code(nng_errno_enum::NNG_EPROTO) == crate::result::errno_code(crate::result::NngErrno::EPROTO),
        errno_enum_code(nng_errno_enum::NNG_EUNREACHABLE) == crate::result::errno_code(crate::result::NngErrno::EUNREACHABLE),
        errno_enum_code(nng_errno_enum::NNG_EADDRINVAL) == crate::result::errno_code(crate::result::NngErrno::EADDRINVAL),
        errno_enum_code(nng_errno_enum::NNG_EPERM) == crate::result::errno_code(crate::result::NngErrno::EPERM),
        errno_enum_code(nng_errno_enum::NNG_EMSGSIZE) == crate::result::errno_code(crate::result::NngErrno::EMSGSIZE),
        errno_enum_code(nng_errno_enum::NNG_ECONNABORTED) == crate::result::errno_code(crate::result::NngErrno::ECONNABORTED),
        errno_enum_code(nng_errno_enum::NNG_ECONNRESET) == crate::result::errno_code(crate::result::NngErrno::ECONNRESET),
        errno_enum_code(nng_errno_enum::NNG_ECANCELED) == crate::result::errno_code(crate::result::NngErrno::ECANCELED),
        errno_enum_code(nng_errno_enum::NNG_ENOFILES) == crate::result::errno_code(crate::result::NngErrno::ENOFILES),
        errno_enum_code(nng_errno_enum::NNG_ENOSPC) == crate::result::errno_code(crate::result::NngErrno::ENOSPC),
        errno_enum_code(nng_errno_enum::NNG_EEXIST) == crate::result::errno_code(crate::result::NngErrno::EEXIST),
        errno_enum_code(nng_errno_enum::NNG_EREADONLY) == crate::result::errno_code(crate::result::NngErrno::EREADONLY),
        errno_enum_code(nng_errno_enum::NNG_EWRITEONLY) == crate::result::errno_code(crate::result::NngErrno::EWRITEONLY),
        errno_enum_code(nng_errno_enum::NNG_ECRYPTO) == crate::result::errno_code(crate::result::NngErrno::ECRYPTO),
        errno_enum_code(nng_errno_enum::NNG_EPEERAUTH) == crate::result::errno_code(crate::result::NngErrno::EPEERAUTH),
        errno_enum_code(nng_errno_enum::NNG_ENOARG) == crate::result::errno_code(crate::result::NngErrno::ENOARG),
        errno_enum_code(nng_errno_enum::NNG_EAMBIGUOUS) == crate::result::errno_code(crate::result::NngErrno::EAMBIGUOUS),
        errno_enum_code(nng_errno_enum::NNG_EBADTYPE) == crate::result::errno_code(crate::result::NngErrno::EBADTYPE),
        errno_enum_code(nng_errno_enum::NNG_ECONNSHUT) == crate::result::errno_code(crate::result::NngErrno::ECONNSHUT),
        errno_enum_code(nng_errno_enum::NNG_EINTERNAL) == crate::result::errno_code(crate::result::NngErrno::EINTERNAL),
{
}

/// The kinds of statistic are numbered as NNG numbers them.
pub proof fn lemma_stat_type_codes_are_nng_numbers()
    ensures
        stat_type_code(nng_stat_type_enum::NNG_STAT_SCOPE) == NNG_STAT_SCOPE,
        stat_type_code(nng_stat_type_enum::NNG_STAT_LEVEL) == NNG_STAT_LEVEL,
        stat_type_code(nng_stat_type_enum::NNG_STAT_COUNTER) == NNG_STAT_COUNTER,
        stat_type_code(nng_stat_type_enum::NNG_STAT_STRING) == NNG_STAT_STRING,
        stat_type_code(nng_stat_type_enum::NNG_STAT_BOOLEAN) == NNG_STAT_BOOLEAN,
        stat_type_code(nng_stat_type_enum::NNG_STAT_ID) == NNG_STAT_ID,
        forall|t1: nng_stat_type_enum, t2: nng_stat_type_enum|
            #[trigger] stat_type_code(t1) == #[trigger] stat_type_code(t2) ==> t1 == t2,
{
}

/// The units of a statistic are numbered as NNG numbers them.
pub proof fn lemma_unit_codes_are_nng_numbers()
    ensures
        unit_code(nng_unit_enum::NNG_UNIT_NONE) == NNG_UNIT_NONE,
        unit_code(nng_unit_enum::NNG_UNIT_BYTES) == NNG_UNIT_BYTES,
        unit_code(nng_unit_enum::NNG_UNIT_MESSAGES) == NNG_UNIT_MESSAGES,
        unit_code(nng_unit_enum::NNG_UNIT_MILLIS) == NNG_UNIT_MILLIS,
        unit_code(nng_unit_enum::NNG_UNIT_EVENTS) == NNG_UNIT_EVENTS,
        forall|u1: nng_unit_enum, u2: nng_unit_enum| #[trigger] unit_code(u1) == #[trigger] unit_code(u2) ==> u1 == u2,
{
}

/// A handle names an object exactly when its id is positive as an `int`;
/// the id reported is then the handle's own id, and -1 otherwise.
pub proof fn lemma_handle_id_is_own_id(id: u32)
    ensures
        0 < id && id <= 0x7fff_ffff ==> handle_id(id) == id as i32 && handle_id(id) > 0,
        id == 0 || id > 0x7fff_ffff ==> handle_id(id) == -1,
        handle_id(id) == -1 || handle_id(id) as int == id as int,
{
}

} // verus!
