use runng::result::{Error as RunngError, EnumFromIntError, NngErrno};
use runng::sys::{
    id_of_handle, nng_errno_enum, nng_pipe_ev, nng_stat_type_enum, nng_unit_enum, NNG_ESYSERR,
    NNG_ETRANERR,
};
use runng::{flatten_result, nng_int_to_result};

#[test]
fn zero_is_success() {
    assert_eq!(nng_int_to_result(0), Ok(()));
}

#[test]
fn known_errno_maps_to_errno() {
    assert_eq!(nng_int_to_result(7), Err(RunngError::Errno(NngErrno::ECLOSED)));
    assert_eq!(nng_int_to_result(1), Err(RunngError::Errno(NngErrno::EINTR)));
    assert_eq!(nng_int_to_result(31), Err(RunngError::Errno(NngErrno::ECONNSHUT)));
    assert_eq!(nng_int_to_result(1000), Err(RunngError::Errno(NngErrno::EINTERNAL)));
}

#[test]
fn system_error_flag_is_stripped() {
    assert_eq!(nng_int_to_result(NNG_ESYSERR | 5), Err(RunngError::SysErr(5)));
}

#[test]
fn transport_error_flag_is_stripped() {
    assert_eq!(nng_int_to_result(NNG_ETRANERR | 9), Err(RunngError::TranErr(9)));
}

#[test]
fn system_flag_wins_over_transport_flag() {
    assert_eq!(
        nng_int_to_result(NNG_ESYSERR | NNG_ETRANERR | 1),
        Err(RunngError::SysErr(NNG_ETRANERR | 1))
    );
}

#[test]
fn unknown_errno_is_kept() {
    assert_eq!(nng_int_to_result(500), Err(RunngError::UnknownErrno(500)));
    assert_eq!(nng_int_to_result(32), Err(RunngError::UnknownErrno(32)));
}

#[test]
fn negative_number_carries_system_flag() {
    assert_eq!(nng_int_to_result(-1), Err(RunngError::SysErr(-1 ^ NNG_ESYSERR)));
    assert_eq!(nng_int_to_result(-1), Err(RunngError::SysErr(-268435457)));
}

#[test]
fn error_try_from_refuses_zero() {
    assert_eq!(RunngError::try_from(0), Err(EnumFromIntError(0)));
    assert_eq!(RunngError::try_from(3), Ok(RunngError::Errno(NngErrno::EINVAL)));
}

#[test]
fn errno_try_from_round_trip() {
    let all = [
        NngErrno::EINTR, NngErrno::ENOMEM, NngErrno::EINVAL, NngErrno::EBUSY,
        NngErrno::ETIMEDOUT, NngErrno::ECONNREFUSED, NngErrno::ECLOSED, NngErrno::EAGAIN,
        NngErrno::ENOTSUP, NngErrno::EADDRINUSE, NngErrno::ESTATE, NngErrno::ENOENT,
        NngErrno::EPROTO, NngErrno::EUNREACHABLE, NngErrno::EADDRINVAL, NngErrno::EPERM,
        NngErrno::EMSGSIZE, NngErrno::ECONNABORTED, NngErrno::ECONNRESET, NngErrno::ECANCELED,
        NngErrno::ENOFILES, NngErrno::ENOSPC, NngErrno::EEXIST, NngErrno::EREADONLY,
        NngErrno::EWRITEONLY, NngErrno::ECRYPTO, NngErrno::EPEERAUTH, NngErrno::ENOARG,
        NngErrno::EAMBIGUOUS, NngErrno::EBADTYPE, NngErrno::ECONNSHUT, NngErrno::EINTERNAL,
    ];
    for e in all.iter() {
        assert_eq!(NngErrno::try_from(e.code()), Ok(*e));
        assert_eq!(nng_int_to_result(e.code()), Err(RunngError::Errno(*e)));
    }
    assert_eq!(NngErrno::ECANCELED.code(), 20);
    assert_eq!(NngErrno::EINTERNAL.code(), 1000);
}

#[test]
fn errno_try_from_unknown() {
    assert_eq!(NngErrno::try_from(0), Err(EnumFromIntError(0)));
    assert_eq!(NngErrno::try_from(32), Err(EnumFromIntError(32)));
    assert_eq!(NngErrno::try_from(-7), Err(EnumFromIntError(-7)));
}

#[test]
fn zero_map_calls_only_on_success() {
    assert_eq!(RunngError::zero_map(0, || 5), Ok(5));
    let r: runng::Result<i32> = RunngError::zero_map(2, || panic!("must not be called"));
    assert_eq!(r, Err(RunngError::Errno(NngErrno::ENOMEM)));
}

#[test]
fn flatten_result_cases() {
    let ok: Result<Result<i32, RunngError>, EnumFromIntError> = Ok(Ok(4));
    assert_eq!(flatten_result(ok), Ok(4));
    let inner: Result<Result<i32, RunngError>, EnumFromIntError> = Ok(Err(RunngError::Unit));
    assert_eq!(flatten_result(inner), Err(RunngError::Unit));
    let outer: Result<Result<i32, RunngError>, EnumFromIntError> = Err(EnumFromIntError(3));
    assert_eq!(flatten_result(outer), Err(RunngError::TryFromError(3)));
}

#[test]
fn dropped_sender_flattens_to_canceled() {
    let (sender, mut receiver) = futures::channel::oneshot::channel::<runng::Result<u8>>();
    drop(sender);
    let outer = receiver.try_recv();
    let canceled = outer.unwrap_err();
    assert_eq!(RunngError::from(canceled), RunngError::Canceled);
    let (sender, mut receiver) = futures::channel::oneshot::channel::<runng::Result<u8>>();
    drop(sender);
    let nested = receiver.try_recv().map(|value| value.unwrap_or(Ok(0)));
    assert_eq!(flatten_result(nested), Err(RunngError::Canceled));
}

#[test]
fn unit_converts_to_unit_error() {
    let e: RunngError = ().into();
    assert_eq!(e, RunngError::Unit);
}

#[test]
fn errno_enum_from_i32() {
    assert_eq!(nng_errno_enum::from_i32(7), Some(nng_errno_enum::NNG_ECLOSED));
    assert_eq!(nng_errno_enum::from_i32(1000), Some(nng_errno_enum::NNG_EINTERNAL));
    assert_eq!(nng_errno_enum::from_i32(NNG_ESYSERR), Some(nng_errno_enum::NNG_ESYSERR));
    assert_eq!(nng_errno_enum::from_i32(NNG_ETRANERR), Some(nng_errno_enum::NNG_ETRANERR));
    assert_eq!(nng_errno_enum::from_i32(31), None);
    assert_eq!(nng_errno_enum::from_i32(0), None);
    assert_eq!(nng_errno_enum::NNG_EBADTYPE.code(), 30);
}

#[test]
fn stat_type_unit_and_pipe_event_from_i32() {
    assert_eq!(nng_stat_type_enum::from_i32(0), Some(nng_stat_type_enum::NNG_STAT_SCOPE));
    assert_eq!(nng_stat_type_enum::from_i32(5), Some(nng_stat_type_enum::NNG_STAT_ID));
    assert_eq!(nng_stat_type_enum::from_i32(6), None);
    assert_eq!(nng_unit_enum::from_i32(3), Some(nng_unit_enum::NNG_UNIT_MILLIS));
    assert_eq!(nng_unit_enum::from_i32(-1), None);
    assert_eq!(nng_pipe_ev::from_i32(2), Some(nng_pipe_ev::NNG_PIPE_EV_REM_POST));
    assert_eq!(nng_pipe_ev::from_i32(3), None);
    assert_eq!(nng_pipe_ev::NNG_PIPE_EV_ADD_PRE.code(), 0);
    assert_eq!(nng_pipe_ev::NNG_PIPE_EV_ADD_POST.code(), 1);
    assert_eq!(nng_pipe_ev::NNG_PIPE_EV_REM_POST.code(), 2);
}

#[test]
fn handle_ids() {
    assert_eq!(id_of_handle(0), -1);
    assert_eq!(id_of_handle(5), 5);
    assert_eq!(id_of_handle(0x7fff_ffff), 0x7fff_ffff);
    assert_eq!(id_of_handle(0x8000_0000), -1);
}
