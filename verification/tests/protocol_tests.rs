use runng::factory::{compat, latest};
use runng::protocol::{Protocol, Pair0, Req0, Sub0};
use runng::result::{Error as RunngError, NngErrno};
use runng::sys::{nng_socket, NNG_ENOTSUP};
use runng::GetSocket;

fn opener(expected: Protocol, id: u32) -> impl FnOnce(Protocol) -> (i32, nng_socket) {
    move |p| {
        assert_eq!(p, expected);
        (0, nng_socket { id })
    }
}

#[test]
fn latest_factory_opens_each_protocol() {
    let f = latest::ProtocolFactory::default();
    assert_eq!(f.requester_open(opener(Protocol::Req0, 1)).unwrap().nng_socket(), nng_socket { id: 1 });
    assert_eq!(f.replier_open(opener(Protocol::Rep0, 2)).unwrap().nng_socket(), nng_socket { id: 2 });
    assert_eq!(f.publisher_open(opener(Protocol::Pub0, 3)).unwrap().nng_socket(), nng_socket { id: 3 });
    assert_eq!(f.subscriber_open(opener(Protocol::Sub0, 4)).unwrap().nng_socket(), nng_socket { id: 4 });
    assert_eq!(f.pusher_open(opener(Protocol::Push0, 5)).unwrap().nng_socket(), nng_socket { id: 5 });
    assert_eq!(f.puller_open(opener(Protocol::Pull0, 6)).unwrap().nng_socket(), nng_socket { id: 6 });
    assert_eq!(f.pair_open(opener(Protocol::Pair1, 7)).unwrap().nng_socket(), nng_socket { id: 7 });
}

#[test]
fn compat_factory_opens_pair_version_0() {
    let f = compat::ProtocolFactory::default();
    let pair: Pair0 = f.pair_open(opener(Protocol::Pair0, 8)).unwrap();
    assert_eq!(pair.nng_socket(), nng_socket { id: 8 });
    assert_eq!(f.requester_open(opener(Protocol::Req0, 1)).unwrap().nng_socket(), nng_socket { id: 1 });
}

#[test]
fn open_failure_is_reported() {
    let r = Req0::open(|_p| (NNG_ENOTSUP, nng_socket { id: 0 }));
    assert_eq!(r.unwrap_err(), RunngError::Errno(NngErrno::ENOTSUP));
}

#[test]
fn cloned_socket_shares_handle() {
    let s = Sub0::open(opener(Protocol::Sub0, 12)).unwrap();
    let c = s.clone();
    assert_eq!(c.socket().nng_socket(), nng_socket { id: 12 });
}
