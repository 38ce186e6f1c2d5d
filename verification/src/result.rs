//! Return values and error handling.

use vstd::prelude::*;
use crate::sys::{
    NNG_EINTR, NNG_ENOMEM, NNG_EINVAL, NNG_EBUSY, NNG_ETIMEDOUT, NNG_ECONNREFUSED, NNG_ECLOSED, NNG_EAGAIN, NNG_ENOTSUP, NNG_EADDRINUSE, NNG_ESTATE, NNG_ENOENT, NNG_EPROTO, NNG_EUNREACHABLE, NNG_EADDRINVAL, NNG_EPERM, NNG_EMSGSIZE, NNG_ECONNABORTED, NNG_ECONNRESET, NNG_ECANCELED, NNG_ENOFILES, NNG_ENOSPC, NNG_EEXIST, NNG_EREADONLY, NNG_EWRITEONLY, NNG_ECRYPTO, NNG_EPEERAUTH, NNG_ENOARG, NNG_EAMBIGUOUS, NNG_EBADTYPE, NNG_ECONNSHUT, NNG_EINTERNAL,
    NNG_ESYSERR, NNG_ETRANERR,
};

verus! {

/// A number that names no value of an enumeration.
#[derive(Clone, Copy, Debug, PartialEq, Eq, Structural)]
pub struct EnumFromIntError(pub i32);

/// Error values returned by NNG functions.
/// The error numbers that carry `NNG_ESYSERR` or `NNG_ETRANERR` are
/// represented by `Error::SysErr` and `Error::TranErr`.
#[derive(Clone, Copy, Debug, PartialEq, Eq, Structural)]
pub enum NngErrno {
    EINTR,
    ENOMEM,
    EINVAL,
    EBUSY,
    ETIMEDOUT,
    ECONNREFUSED,
    ECLOSED,
    EAGAIN,
    ENOTSUP,
    EADDRINUSE,
    ESTATE,
    ENOENT,
    EPROTO,
    EUNREACHABLE,
    EADDRINVAL,
    EPERM,
    EMSGSIZE,
    ECONNABORTED,
    ECONNRESET,
    ECANCELED,
    ENOFILES,
    ENOSPC,
    EEXIST,
    EREADONLY,
    EWRITEONLY,
    ECRYPTO,
    EPEERAUTH,
    ENOARG,
    EAMBIGUOUS,
    EBADTYPE,
    ECONNSHUT,
    EINTERNAL,
}

/// The error number of each `NngErrno`.
pub open spec fn errno_code(e: NngErrno) -> i32 {
    match e {
        NngErrno::EINTR => 1,
        NngErrno::ENOMEM => 2,
        NngErrno::EINVAL => 3,
        NngErrno::EBUSY => 4,
        NngErrno::ETIMEDOUT => 5,
        NngErrno::ECONNREFUSED => 6,
        NngErrno::ECLOSED => 7,
        NngErrno::EAGAIN => 8,
        NngErrno::ENOTSUP => 9,
        NngErrno::EADDRINUSE => 10,
        NngErrno::ESTATE => 11,
        NngErrno::ENOENT => 12,
        NngErrno::EPROTO => 13,
        NngErrno::EUNREACHABLE => 14,
        NngErrno::EADDRINVAL => 15,
        NngErrno::EPERM => 16,
        NngErrno::EMSGSIZE => 17,
        NngErrno::ECONNABORTED => 18,
        NngErrno::ECONNRESET => 19,
        NngErrno::ECANCELED => 20,
        NngErrno::ENOFILES => 21,
        NngErrno::ENOSPC => 22,
        NngErrno::EEXIST => 23,
        NngErrno::EREADONLY => 24,
        NngErrno::EWRITEONLY => 25,
        NngErrno::ECRYPTO => 26,
        NngErrno::EPEERAUTH => 27,
        NngErrno::ENOARG => 28,
        NngErrno::EAMBIGUOUS => 29,
        NngErrno::EBADTYPE => 30,
        NngErrno::ECONNSHUT => 31,
        NngErrno::EINTERNAL => 1000,
    }
}

/// Whether `value` is the error number of some `NngErrno`.
pub open spec fn is_errno_code(value: i32) -> bool {
    (1 <= value && value <= 31) || value == 1000
}

/// The `NngErrno` whose error number is `value` (where there is one).
pub open spec fn errno_of_code(value: i32) -> NngErrno {
    choose|e: NngErrno| errno_code(e) == value
}

/// Distinct errors have distinct numbers, and the numbers are exactly
/// those of `is_errno_code`.
pub proof fn lemma_errno_code_bijective()
    ensures
        forall|e1: NngErrno, e2: NngErrno| errno_code(e1) == errno_code(e2) ==> e1 == e2,
        forall|e: NngErrno| #[trigger] is_errno_code(errno_code(e)),
        forall|v: i32| is_errno_code(v) ==> errno_code(#[trigger] errno_of_code(v)) == v,
{
    assert forall|v: i32| is_errno_code(v) implies errno_code(#[trigger] errno_of_code(v)) == v by {
        let w: NngErrno = if v == 1000 {
            NngErrno::EINTERNAL
        } else {
            lemma_small_code_has_errno(v)
        };
        assert(errno_code(w) == v);
    }
}

proof fn lemma_small_code_has_errno(v: i32) -> (e: NngErrno)
    requires
        1 <= v <= 31,
    ensures
        errno_code(e) == v,
{
    if v == 1 { NngErrno::EINTR }
    else if v == 2 { NngErrno::ENOMEM }
    else if v == 3 { NngErrno::EINVAL }
    else if v == 4 { NngErrno::EBUSY }
    else if v == 5 { NngErrno::ETIMEDOUT }
    else if v == 6 { NngErrno::ECONNREFUSED }
    else if v == 7 { NngErrno::ECLOSED }
    else if v == 8 { NngErrno::EAGAIN }
    else if v == 9 { NngErrno::ENOTSUP }
    else if v == 10 { NngErrno::EADDRINUSE }
    else if v == 11 { NngErrno::ESTATE }
    else if v == 12 { NngErrno::ENOENT }
    else if v == 13 { NngErrno::EPROTO }
    else if v == 14 { NngErrno::EUNREACHABLE }
    else if v == 15 { NngErrno::EADDRINVAL }
    else if v == 16 { NngErrno::EPERM }
    else if v == 17 { NngErrno::EMSGSIZE }
    else if v == 18 { NngErrno::ECONNABORTED }
    else if v == 19 { NngErrno::ECONNRESET }
    else if v == 20 { NngErrno::ECANCELED }
    else if v == 21 { NngErrno::ENOFILES }
    else if v == 22 { NngErrno::ENOSPC }
    else if v == 23 { NngErrno::EEXIST }
    else if v == 24 { NngErrno::EREADONLY }
    else if v == 25 { NngErrno::EWRITEONLY }
    else if v == 26 { NngErrno::ECRYPTO }
    else if v == 27 { NngErrno::EPEERAUTH }
    else if v == 28 { NngErrno::ENOARG }
    else if v == 29 { NngErrno::EAMBIGUOUS }
    else if v == 30 { NngErrno::EBADTYPE }
    else { NngErrno::ECONNSHUT }
}

impl NngErrno {
    /// The error number of this error.
    pub fn code(&self) -> (r: i32)
        ensures
            r == errno_code(*self),
    {
        match self {
            NngErrno::EINTR => 1,
            NngErrno::ENOMEM => 2,
            NngErrno::EINVAL => 3,
            NngErrno::EBUSY => 4,
            NngErrno::ETIMEDOUT => 5,
            NngErrno::ECONNREFUSED => 6,
            NngErrno::ECLOSED => 7,
            NngErrno::EAGAIN => 8,
            NngErrno::ENOTSUP => 9,
            NngErrno::EADDRINUSE => 10,
            NngErrno::ESTATE => 11,
            NngErrno::ENOENT => 12,
            NngErrno::EPROTO => 13,
            NngErrno::EUNREACHABLE => 14,
            NngErrno::EADDRINVAL => 15,
            NngErrno::EPERM => 16,
            NngErrno::EMSGSIZE => 17,
            NngErrno::ECONNABORTED => 18,
            NngErrno::ECONNRESET => 19,
            NngErrno::ECANCELED => 20,
            NngErrno::ENOFILES => 21,
            NngErrno::ENOSPC => 22,
            NngErrno::EEXIST => 23,
            NngErrno::EREADONLY => 24,
            NngErrno::EWRITEONLY => 25,
            NngErrno::ECRYPTO => 26,
            NngErrno::EPEERAUTH => 27,
            NngErrno::ENOARG => 28,
            NngErrno::EAMBIGUOUS => 29,
            NngErrno::EBADTYPE => 30,
            NngErrno::ECONNSHUT => 31,
            NngErrno::EINTERNAL => 1000,
        }
    }

    /// Converts an error number into an `NngErrno`.
    pub fn try_from(value: i32) -> (r: core::result::Result<NngErrno, EnumFromIntError>)
        ensures
            is_errno_code(value) ==> r == Ok::<NngErrno, EnumFromIntError>(errno_of_code(value)),
            !is_errno_code(value) ==> r == Err::<NngErrno, EnumFromIntError>(EnumFromIntError(value)),
    {
        proof {
            lemma_errno_code_bijective();
        }
        match value {
            1 => Ok(NngErrno::EINTR),
            2 => Ok(NngErrno::ENOMEM),
            3 => Ok(NngErrno::EINVAL),
            4 => Ok(NngErrno::EBUSY),
            5 => Ok(NngErrno::ETIMEDOUT),
            6 => Ok(NngErrno::ECONNREFUSED),
            7 => Ok(NngErrno::ECLOSED),
            8 => Ok(NngErrno::EAGAIN),
            9 => Ok(NngErrno::ENOTSUP),
            10 => Ok(NngErrno::EADDRINUSE),
            11 => Ok(NngErrno::ESTATE),
            12 => Ok(NngErrno::ENOENT),
            13 => Ok(NngErrno::EPROTO),
            14 => Ok(NngErrno::EUNREACHABLE),
            15 => Ok(NngErrno::EADDRINVAL),
            16 => Ok(NngErrno::EPERM),
            17 => Ok(NngErrno::EMSGSIZE),
            18 => Ok(NngErrno::ECONNABORTED),
            19 => Ok(NngErrno::ECONNRESET),
            20 => Ok(NngErrno::ECANCELED),
            21 => Ok(NngErrno::ENOFILES),
            22 => Ok(NngErrno::ENOSPC),
            23 => Ok(NngErrno::EEXIST),
            24 => Ok(NngErrno::EREADONLY),
            25 => Ok(NngErrno::EWRITEONLY),
            26 => Ok(NngErrno::ECRYPTO),
            27 => Ok(NngErrno::EPEERAUTH),
            28 => Ok(NngErrno::ENOARG),
            29 => Ok(NngErrno::EAMBIGUOUS),
            30 => Ok(NngErrno::EBADTYPE),
            31 => Ok(NngErrno::ECONNSHUT),
            1000 => Ok(NngErrno::EINTERNAL),
            _ => Err(EnumFromIntError(value)),
        }
    }
}


/// Errors of this library.
#[derive(Clone, Copy, Debug, PartialEq, Eq, Structural)]
pub enum Error {
    /// An error number that names an `NngErrno`.
    Errno(NngErrno),
    /// `NNG_ESYSERR`: the system error number it carries.
    SysErr(i32),
    /// `NNG_ETRANERR`: the transport error number it carries.
    TranErr(i32),
    /// A nonzero error number that is none of the above.
    UnknownErrno(i32),
    /// A string held a NUL byte; the position of the first one.
    NulError(usize),
    Unit,
    /// The other half of a channel went away.
    Canceled,
    TryFromError(i32),
}

/// Result type of this library.
pub type Result<T> = core::result::Result<T, Error>;

/// The error that a nonzero error number stands for.
pub open spec fn error_of(value: i32) -> Error {
    if is_errno_code(value) {
        Error::Errno(errno_of_code(value))
    } else if value & NNG_ESYSERR != 0 {
        Error::SysErr(value ^ NNG_ESYSERR)
    } else if value & NNG_ETRANERR != 0 {
        Error::TranErr(value ^ NNG_ETRANERR)
    } else {
        Error::UnknownErrno(value)
    }
}

/// What an integer returned by an NNG function means: 0 is success,
/// anything else the error it stands for.
pub open spec fn int_result(value: i32) -> Result<()> {
    if value == 0 {
        Ok(())
    } else {
        Err(error_of(value))
    }
}

impl Error {
    /// Converts a nonzero error number into an `Error`; 0 is refused.
    pub fn try_from(value: i32) -> (r: core::result::Result<Error, EnumFromIntError>)
        ensures
            value == 0 ==> r == Err::<Error, EnumFromIntError>(EnumFromIntError(0)),
            value != 0 ==> r == Ok::<Error, EnumFromIntError>(error_of(value)),
    {
        if value == 0 {
            Err(EnumFromIntError(value))
        } else if let Ok(error) = NngErrno::try_from(value) {
            Ok(Error::Errno(error))
        } else if value & NNG_ESYSERR != 0 {
            Ok(Error::SysErr(value ^ NNG_ESYSERR))
        } else if value & NNG_ETRANERR != 0 {
            Ok(Error::TranErr(value ^ NNG_ETRANERR))
        } else {
            Ok(Error::UnknownErrno(value))
        }
    }

    /// If `value` is zero returns `Ok(result())`.  Otherwise converts
    /// `value` to an `Error` and returns that; `result` is then not called.
    pub fn zero_map<T, F: FnOnce() -> T>(value: i32, result: F) -> (r: Result<T>)
        requires
            value == 0 ==> call_requires(result, ()),
        ensures
            value == 0 ==> (r is Ok && call_ensures(result, (), r->Ok_0)),
            value != 0 ==> r == Err::<T, Error>(error_of(value)),
    {
        match nng_int_to_result(value) {
            Ok(()) => Ok(result()),
            Err(e) => Err(e),
        }
    }
}

/// Converts integers returned by NNG methods into `Result`.
/// 0 is `Ok` and anything else is `Err`.
pub fn nng_int_to_result(value: i32) -> (r: Result<()>)
    ensures
        r == int_result(value),
{
    if value == 0 {
        Ok(())
    } else if let Ok(error) = Error::try_from(value) {
        Err(error)
    } else {
        Err(Error::UnknownErrno(value))
    }
}

/// Flattens nested results; the outer error is converted with `From`.
pub fn flatten_result<T, E, F>(
    result: core::result::Result<core::result::Result<T, E>, F>,
) -> (r: core::result::Result<T, E>) where E: core::convert::From<F>
    ensures
        match result {
            Ok(inner) => r == inner,
            Err(outer) => r is Err && call_ensures(E::from, (outer,), r->Err_0),
        },
{
    match result {
        Ok(result) => result,
        Err(err) => Err(E::from(err)),
    }
}

impl core::convert::From<EnumFromIntError> for Error {
    fn from(err: EnumFromIntError) -> (r: Error) {
        Error::TryFromError(err.0)
    }
}

impl vstd::std_specs::convert::FromSpecImpl<EnumFromIntError> for Error {
    open spec fn obeys_from_spec() -> bool {
        true
    }

    open spec fn from_spec(err: EnumFromIntError) -> Error {
        Error::TryFromError(err.0)
    }
}

/// `futures::channel::oneshot::Canceled`, the error of a oneshot channel
/// whose sending half went away, carried through opaque.
#[verifier::external_type_specification]
#[verifier::external_body]
pub struct ExCanceled(futures::channel::oneshot::Canceled);

impl core::convert::From<futures::channel::oneshot::Canceled> for Error {
    fn from(err: futures::channel::oneshot::Canceled) -> (r: Error) {
        Error::Canceled
    }
}

impl vstd::std_specs::convert::FromSpecImpl<futures::channel::oneshot::Canceled> for Error {
    open spec fn obeys_from_spec() -> bool {
        true
    }

    open spec fn from_spec(err: futures::channel::oneshot::Canceled) -> Error {
        Error::Canceled
    }
}

impl core::convert::From<()> for Error {
    fn from(unit: ()) -> (r: Error) {
        Error::Unit
    }
}

impl vstd::std_specs::convert::FromSpecImpl<()> for Error {
    open spec fn obeys_from_spec() -> bool {
        true
    }

    open spec fn from_spec(unit: ()) -> Error {
        Error::Unit
    }
}

/// Every `NngErrno` survives the round trip through its error number.
pub proof fn lemma_errno_round_trip(e: NngErrno)
    ensures
        error_of(errno_code(e)) == Error::Errno(e),
        int_result(errno_code(e)) == Err::<(), Error>(Error::Errno(e)),
{
    lemma_errno_code_bijective();
    assert(errno_code(e) != 0);
}

/// A system error number `n` marked with `NNG_ESYSERR` is read back as
/// `Error::SysErr(n)`.
pub proof fn lemma_sys_err_round_trip(n: i32)
    requires
        n & NNG_ESYSERR == 0,
    ensures
        error_of(n | NNG_ESYSERR) == Error::SysErr(n),
{
    let v: i32 = n | NNG_ESYSERR;
    assert(v & 0x10000000i32 != 0 && v ^ 0x10000000i32 == n && v != 0) by (bit_vector)
        requires v == n | 0x10000000i32, n & 0x10000000i32 == 0;
    assert(!is_errno_code(v)) by {
        if 1 <= v <= 1000 {
            assert(v & 0x10000000i32 == 0) by (bit_vector)
                requires 1 <= v <= 1000;
        }
    }
}

/// A transport error number `n` marked with `NNG_ETRANERR` (and not with
/// `NNG_ESYSERR`) is read back as `Error::TranErr(n)`.
pub proof fn lemma_tran_err_round_trip(n: i32)
    requires
        n & NNG_ESYSERR == 0,
        n & NNG_ETRANERR == 0,
    ensures
        error_of(n | NNG_ETRANERR) == Error::TranErr(n),
{
    let v: i32 = n | NNG_ETRANERR;
    assert(v & 0x20000000i32 != 0 && v & 0x10000000i32 == 0 && v ^ 0x20000000i32 == n && v != 0)
        by (bit_vector)
        requires v == n | 0x20000000i32, n & 0x10000000i32 == 0, n & 0x20000000i32 == 0;
    assert(!is_errno_code(v)) by {
        if 1 <= v <= 1000 {
            assert(v & 0x20000000i32 == 0) by (bit_vector)
                requires 1 <= v <= 1000;
        }
    }
}

/// Each `NngErrno` stands for the NNG error number of the same name, and
/// each of those numbers, returned by an NNG function, reads back as the
/// error of that name.
pub proof fn lemma_errno_codes_are_nng_numbers()
    ensures
        errno_code(NngErrno::EINTR) == NNG_EINTR,
        errno_code(NngErrno::ENOMEM) == NNG_ENOMEM,
        errno_code(NngErrno::EINVAL) == NNG_EINVAL,
        errno_code(NngErrno::EBUSY) == NNG_EBUSY,
        errno_code(NngErrno::ETIMEDOUT) == NNG_ETIMEDOUT,
        errno_code(NngErrno::ECONNREFUSED) == NNG_ECONNREFUSED,
        errno_code(NngErrno::ECLOSED) == NNG_ECLOSED,
        errno_code(NngErrno::EAGAIN) == NNG_EAGAIN,
        errno_code(NngErrno::ENOTSUP) == NNG_ENOTSUP,
        errno_code(NngErrno::EADDRINUSE) == NNG_EADDRINUSE,
        errno_code(NngErrno::ESTATE) == NNG_ESTATE,
        errno_code(NngErrno::ENOENT) == NNG_ENOENT,
        errno_code(NngErrno::EPROTO) == NNG_EPROTO,
        errno_code(NngErrno::EUNREACHABLE) == NNG_EUNREACHABLE,
        errno_code(NngErrno::EADDRINVAL) == NNG_EADDRINVAL,
        errno_code(NngErrno::EPERM) == NNG_EPERM,
        errno_code(NngErrno::EMSGSIZE) == NNG_EMSGSIZE,
        errno_code(NngErrno::ECONNABORTED) == NNG_ECONNABORTED,
        errno_code(NngErrno::ECONNRESET) == NNG_ECONNRESET,
        errno_code(NngErrno::ECANCELED) == NNG_ECANCELED,
        errno_code(NngErrno::ENOFILES) == NNG_ENOFILES,
        errno_code(NngErrno::ENOSPC) == NNG_ENOSPC,
        errno_code(NngErrno::EEXIST) == NNG_EEXIST,
        errno_code(NngErrno::EREADONLY) == NNG_EREADONLY,
        errno_code(NngErrno::EWRITEONLY) == NNG_EWRITEONLY,
        errno_code(NngErrno::ECRYPTO) == NNG_ECRYPTO,
        errno_code(NngErrno::EPEERAUTH) == NNG_EPEERAUTH,
        errno_code(NngErrno::ENOARG) == NNG_ENOARG,
        errno_code(NngErrno::EAMBIGUOUS) == NNG_EAMBIGUOUS,
        errno_code(NngErrno::EBADTYPE) == NNG_EBADTYPE,
        errno_code(NngErrno::ECONNSHUT) == NNG_ECONNSHUT,
        errno_code(NngErrno::EINTERNAL) == NNG_EINTERNAL,
        int_result(NNG_EINTR) == Err::<(), Error>(Error::Errno(NngErrno::EINTR)),
        int_result(NNG_ENOMEM) == Err::<(), Error>(Error::Errno(NngErrno::ENOMEM)),
        int_result(NNG_EINVAL) == Err::<(), Error>(Error::Errno(NngErrno::EINVAL)),
        int_result(NNG_EBUSY) == Err::<(), Error>(Error::Errno(NngErrno::EBUSY)),
        int_result(NNG_ETIMEDOUT) == Err::<(), Error>(Error::Errno(NngErrno::ETIMEDOUT)),
        int_result(NNG_ECONNREFUSED) == Err::<(), Error>(Error::Errno(NngErrno::ECONNREFUSED)),
        int_result(NNG_ECLOSED) == Err::<(), Error>(Error::Errno(NngErrno::ECLOSED)),
        int_result(NNG_EAGAIN) == Err::<(), Error>(Error::Errno(NngErrno::EAGAIN)),
        int_result(NNG_ENOTSUP) == Err::<(), Error>(Error::Errno(NngErrno::ENOTSUP)),
        int_result(NNG_EADDRINUSE) == Err::<(), Error>(Error::Errno(NngErrno::EADDRINUSE)),
        int_result(NNG_ESTATE) == Err::<(), Error>(Error::Errno(NngErrno::ESTATE)),
        int_result(NNG_ENOENT) == Err::<(), Error>(Error::Errno(NngErrno::ENOENT)),
        int_result(NNG_EPROTO) == Err::<(), Error>(Error::Errno(NngErrno::EPROTO)),
        int_result(NNG_EUNREACHABLE) == Err::<(), Error>(Error::Errno(NngErrno::EUNREACHABLE)),
        int_result(NNG_EADDRINVAL) == Err::<(), Error>(Error::Errno(NngErrno::EADDRINVAL)),
        int_result(NNG_EPERM) == Err::<(), Error>(Error::Errno(NngErrno::EPERM)),
        int_result(NNG_EMSGSIZE) == Err::<(), Error>(Error::Errno(NngErrno::EMSGSIZE)),
        int_result(NNG_ECONNABORTED) == Err::<(), Error>(Error::Errno(NngErrno::ECONNABORTED)),
        int_result(NNG_ECONNRESET) == Err::<(), Error>(Error::Errno(NngErrno::ECONNRESET)),
        int_result(NNG_ECANCELED) == Err::<(), Error>(Error::Errno(NngErrno::ECANCELED)),
        int_result(NNG_ENOFILES) == Err::<(), Error>(Error::Errno(NngErrno::ENOFILES)),
        int_result(NNG_ENOSPC) == Err::<(), Error>(Error::Errno(NngErrno::ENOSPC)),
        int_result(NNG_EEXIST) == Err::<(), Error>(Error::Errno(NngErrno::EEXIST)),
        int_result(NNG_EREADONLY) == Err::<(), Error>(Error::Errno(NngErrno::EREADONLY)),
        int_result(NNG_EWRITEONLY) == Err::<(), Error>(Error::Errno(NngErrno::EWRITEONLY)),
        int_result(NNG_ECRYPTO) == Err::<(), Error>(Error::Errno(NngErrno::ECRYPTO)),
        int_result(NNG_EPEERAUTH) == Err::<(), Error>(Error::Errno(NngErrno::EPEERAUTH)),
        int_result(NNG_ENOARG) == Err::<(), Error>(Error::Errno(NngErrno::ENOARG)),
        int_result(NNG_EAMBIGUOUS) == Err::<(), Error>(Error::Errno(NngErrno::EAMBIGUOUS)),
        int_result(NNG_EBADTYPE) == Err::<(), Error>(Error::Errno(NngErrno::EBADTYPE)),
        int_result(NNG_ECONNSHUT) == Err::<(), Error>(Error::Errno(NngErrno::ECONNSHUT)),
        int_result(NNG_EINTERNAL) == Err::<(), Error>(Error::Errno(NngErrno::EINTERNAL)),
{
    lemma_errno_round_trip(NngErrno::EINTR);
    lemma_errno_round_trip(NngErrno::ENOMEM);
    lemma_errno_round_trip(NngErrno::EINVAL);
    lemma_errno_round_trip(NngErrno::EBUSY);
    lemma_errno_round_trip(NngErrno::ETIMEDOUT);
    lemma_errno_round_trip(NngErrno::ECONNREFUSED);
    lemma_errno_round_trip(NngErrno::ECLOSED);
    lemma_errno_round_trip(NngErrno::EAGAIN);
    lemma_errno_round_trip(NngErrno::ENOTSUP);
    lemma_errno_round_trip(NngErrno::EADDRINUSE);
    lemma_errno_round_trip(NngErrno::ESTATE);
    lemma_errno_round_trip(NngErrno::ENOENT);
    lemma_errno_round_trip(NngErrno::EPROTO);
    lemma_errno_round_trip(NngErrno::EUNREACHABLE);
    lemma_errno_round_trip(NngErrno::EADDRINVAL);
    lemma_errno_round_trip(NngErrno::EPERM);
    lemma_errno_round_trip(NngErrno::EMSGSIZE);
    lemma_errno_round_trip(NngErrno::ECONNABORTED);
    lemma_errno_round_trip(NngErrno::ECONNRESET);
    lemma_errno_round_trip(NngErrno::ECANCELED);
    lemma_errno_round_trip(NngErrno::ENOFILES);
    lemma_errno_round_trip(NngErrno::ENOSPC);
    lemma_errno_round_trip(NngErrno::EEXIST);
    lemma_errno_round_trip(NngErrno::EREADONLY);
    lemma_errno_round_trip(NngErrno::EWRITEONLY);
    lemma_errno_round_trip(NngErrno::ECRYPTO);
    lemma_errno_round_trip(NngErrno::EPEERAUTH);
    lemma_errno_round_trip(NngErrno::ENOARG);
    lemma_errno_round_trip(NngErrno::EAMBIGUOUS);
    lemma_errno_round_trip(NngErrno::EBADTYPE);
    lemma_errno_round_trip(NngErrno::ECONNSHUT);
    lemma_errno_round_trip(NngErrno::EINTERNAL);
}

} // verus!
