use runng::ctx::NngCtx;
use runng::dialer::{NngDialer, UnsafeDialer};
use runng::listener::{NngListener, UnsafeListener};
use runng::mem::Alloc;
use runng::result::{Error as RunngError, NngErrno};
use runng::socket::{close_result, send_result, zerocopy_flags};
use runng::sys::{nng_ctx, nng_dialer, nng_listener, nng_socket, NNG_ECLOSED, NNG_ENOMEM};
use runng::{Flags, GetSocket, NngSocket, NngString, Socket, SocketFlags, UnsafeSocket};

#[test]
fn alloc_holds_bytes() {
    let a = Alloc::new(vec![1, 2, 3]).unwrap();
    assert_eq!(a.as_slice(), &[1, 2, 3]);
    let b = a.clone();
    assert!(a == b);
    assert_eq!(Alloc::with_capacity(5).unwrap().as_slice().len(), 5);
    assert!(Alloc::new(vec![1]).unwrap() != Alloc::new(vec![2]).unwrap());
}

#[test]
fn nng_string_refuses_nul() {
    assert_eq!(NngString::new(b"ab\0cd\0".to_vec()).unwrap_err(), RunngError::NulError(2));
    assert_eq!(NngString::new(vec![0]).unwrap_err(), RunngError::NulError(0));
}

#[test]
fn nng_string_to_str() {
    let s = NngString::new(b"hello".to_vec()).unwrap();
    assert_eq!(s.to_str().unwrap(), "hello");
    let d = s.dup();
    assert!(d == s);
    assert!(s.clone() == s);
    let bad = NngString::new(vec![0xff, 0xfe]).unwrap();
    assert!(bad.to_str().is_err());
    assert!(bad != s);
}

#[test]
fn flags_bits() {
    assert_eq!(Flags::default().bits(), 0);
    assert_eq!(Flags::empty().bits(), 0);
    assert_eq!(Flags::nonblock().bits(), 2);
    assert_eq!(Flags::zerocopy().bits(), 1);
    let both = Flags::nonblock().union(Flags::zerocopy());
    assert_eq!(both.bits(), 3);
    assert!(both.contains(Flags::nonblock()));
    assert!(!Flags::zerocopy().contains(Flags::nonblock()));
    assert_eq!(SocketFlags::default().bits(), 0);
    assert_eq!(SocketFlags::nonblock().bits(), 2);
    assert_eq!(SocketFlags::empty().bits(), 0);
}

#[test]
fn zerocopy_always_sets_alloc() {
    assert_eq!(zerocopy_flags(Flags::empty()), 1);
    assert_eq!(zerocopy_flags(Flags::nonblock()), 3);
    assert_eq!(zerocopy_flags(Flags::zerocopy()), 1);
}

#[test]
fn socket_handles() {
    let s = NngSocket::new(nng_socket { id: 4 });
    assert_eq!(s.nng_socket(), nng_socket { id: 4 });
    assert_eq!(s.clone().nng_socket(), nng_socket { id: 4 });
    assert_eq!(GetSocket::socket(&s).nng_socket(), nng_socket { id: 4 });
    assert_eq!(UnsafeSocket::new(nng_socket { id: 4 }).id(), 4);
    assert_eq!(UnsafeSocket::new(nng_socket { id: 0 }).id(), -1);
}

#[test]
fn send_result_hands_message_back() {
    assert!(send_result(0, "message").is_ok());
    let err = send_result(NNG_ECLOSED, "message").unwrap_err();
    assert_eq!(err.error, RunngError::Errno(NngErrno::ECLOSED));
    assert_eq!(err.into_inner(), "message");
}

#[test]
fn dialer_refuses_nul_in_url() {
    let socket = NngSocket::new(nng_socket { id: 1 });
    let r = NngDialer::new(socket, "tcp://a\0b", |_s, _u| panic!("must not be called"));
    assert_eq!(r.unwrap_err(), RunngError::NulError(7));
}

#[test]
fn dialer_created_with_socket_and_url() {
    let socket = NngSocket::new(nng_socket { id: 1 });
    let d = NngDialer::new(socket, "inproc://x", |s, u| {
        assert_eq!(s, nng_socket { id: 1 });
        assert_eq!(u, "inproc://x");
        (0, nng_dialer { id: 9 })
    })
    .unwrap();
    assert_eq!(d.handle(), nng_dialer { id: 9 });
    assert_eq!(d.socket().nng_socket(), nng_socket { id: 1 });
    let socket = NngSocket::new(nng_socket { id: 1 });
    let e = NngDialer::new(socket, "inproc://x", |_s, _u| (NNG_ENOMEM, nng_dialer { id: 0 }));
    assert_eq!(e.unwrap_err(), RunngError::Errno(NngErrno::ENOMEM));
    assert_eq!(UnsafeDialer::new(nng_dialer { id: 9 }).id(), 9);
}

#[test]
fn listener_created_with_socket_and_url() {
    let socket = NngSocket::new(nng_socket { id: 2 });
    let l = NngListener::new(socket, "tcp://127.0.0.1:5555", |s, u| {
        assert_eq!(s, nng_socket { id: 2 });
        assert_eq!(u, "tcp://127.0.0.1:5555");
        (0, nng_listener { id: 3 })
    })
    .unwrap();
    assert_eq!(l.handle(), nng_listener { id: 3 });
    let socket = NngSocket::new(nng_socket { id: 2 });
    let e = NngListener::new(socket, "a\0", |_s, _u| (0, nng_listener { id: 3 }));
    assert_eq!(e.unwrap_err(), RunngError::NulError(1));
    assert_eq!(UnsafeListener::new(nng_listener { id: 0 }).id(), -1);
}

#[test]
fn dialer_and_listener_start_report_the_native_outcome() {
    let socket = NngSocket::new(nng_socket { id: 4 });
    let d = NngDialer::new(socket, "inproc://s", |_s, _u| (0, nng_dialer { id: 6 })).unwrap();
    assert_eq!(
        d.start(|h, flags| {
            assert_eq!(h, nng_dialer { id: 6 });
            assert_eq!(flags, 0);
            0
        }),
        Ok(())
    );
    assert_eq!(d.start(|_h, _f| NNG_ECLOSED), Err(RunngError::Errno(NngErrno::ECLOSED)));
    let socket = NngSocket::new(nng_socket { id: 4 });
    let l = NngListener::new(socket, "inproc://s", |_s, _u| (0, nng_listener { id: 8 })).unwrap();
    assert_eq!(
        l.start(|h, flags| {
            assert_eq!(h, nng_listener { id: 8 });
            assert_eq!(flags, 0);
            0
        }),
        Ok(())
    );
    assert_eq!(l.start(|_h, _f| NNG_ENOMEM), Err(RunngError::Errno(NngErrno::ENOMEM)));
}

#[test]
fn ctx_opened_on_socket() {
    let socket = NngSocket::new(nng_socket { id: 2 });
    let c = NngCtx::new(socket, |s| {
        assert_eq!(s, nng_socket { id: 2 });
        (0, nng_ctx { id: 11 })
    })
    .unwrap();
    assert_eq!(c.id(), 11);
    assert_eq!(c.ctx(), nng_ctx { id: 11 });
    assert!(c.needs_close());
    let socket = NngSocket::new(nng_socket { id: 2 });
    let e = NngCtx::new(socket, |_s| (NNG_ECLOSED, nng_ctx { id: 0 }));
    assert_eq!(e.unwrap_err(), RunngError::Errno(NngErrno::ECLOSED));
}

#[test]
fn close_treats_closed_as_done() {
    assert_eq!(close_result(0), Ok(()));
    assert_eq!(close_result(NNG_ECLOSED), Ok(()));
    assert_eq!(close_result(NNG_ENOMEM), Err(RunngError::Errno(NngErrno::ENOMEM)));
}

#[test]
fn socket_with_runs_setup_then_hands_socket_back() {
    let mut calls = 0;
    let s = NngSocket::new(nng_socket { id: 3 })
        .with(|s| {
            calls += 1;
            Ok(s)
        })
        .unwrap();
    assert_eq!(calls, 1);
    assert_eq!(s.nng_socket(), nng_socket { id: 3 });
    let e = NngSocket::new(nng_socket { id: 3 }).with(|_s| Err(RunngError::Errno(NngErrno::EADDRINUSE)));
    assert_eq!(e.unwrap_err(), RunngError::Errno(NngErrno::EADDRINUSE));
}
