use runng::msg::NngMsg;
use runng::msgbuilder::MsgBuilder;
use runng::pipe::{NngPipe, NngPipeEv};
use runng::result::{EnumFromIntError, Error as RunngError, NngErrno};
use runng::sys::{nng_dialer, nng_listener, nng_pipe, nng_socket};

#[test]
fn new_message_is_empty() {
    let m = NngMsg::new().unwrap();
    assert!(m.is_empty());
    assert_eq!(m.len(), 0);
    assert_eq!(m.header_len(), 0);
    assert!(m.get_pipe().is_none());
    let c = NngMsg::create().unwrap();
    assert_eq!(c.as_slice(), &[] as &[u8]);
}

#[test]
fn with_capacity_sets_body_length() {
    let m = NngMsg::with_capacity(4).unwrap();
    assert_eq!(m.len(), 4);
    assert_eq!(m.header_len(), 0);
    assert_eq!(NngMsg::with_size(7).unwrap().len(), 7);
}

#[test]
fn append_and_insert_body() {
    let mut m = NngMsg::new().unwrap();
    m.append_slice(&[3, 4]).unwrap();
    m.insert_slice(&[1, 2]).unwrap();
    m.append_slice(&[5]).unwrap();
    assert_eq!(m.body(), &[1, 2, 3, 4, 5]);
    assert_eq!(m.as_slice(), &[1, 2, 3, 4, 5]);
    assert_eq!(m.header_len(), 0);
}

#[test]
fn trim_and_chop_body() {
    let mut m = NngMsg::new().unwrap();
    m.append_slice(&[1, 2, 3, 4, 5]).unwrap();
    m.trim(2).unwrap();
    assert_eq!(m.body(), &[3, 4, 5]);
    m.chop(1).unwrap();
    assert_eq!(m.body(), &[3, 4]);
    assert_eq!(m.trim(3), Err(RunngError::Errno(NngErrno::EINVAL)));
    assert_eq!(m.chop(3), Err(RunngError::Errno(NngErrno::EINVAL)));
    assert_eq!(m.body(), &[3, 4]);
    m.trim(2).unwrap();
    assert!(m.is_empty());
}

#[test]
fn header_operations() {
    let mut m = NngMsg::new().unwrap();
    m.header_append_slice(&[7, 8]).unwrap();
    m.header_insert_slice(&[6]).unwrap();
    assert_eq!(m.header(), &[6, 7, 8]);
    m.header_trim(1).unwrap();
    assert_eq!(m.header(), &[7, 8]);
    m.header_chop(1).unwrap();
    assert_eq!(m.header(), &[7]);
    assert_eq!(m.header_trim(2), Err(RunngError::Errno(NngErrno::EINVAL)));
    assert_eq!(m.header_chop(2), Err(RunngError::Errno(NngErrno::EINVAL)));
    assert_eq!(m.header(), &[7]);
    assert!(m.is_empty());
}

#[test]
fn append_then_chop_restores() {
    let mut m = NngMsg::new().unwrap();
    m.append_slice(&[9, 9]).unwrap();
    let before = m.clone();
    m.append_slice(&[1, 2, 3]).unwrap();
    m.chop(3).unwrap();
    assert!(m == before);
}

#[test]
fn insert_then_trim_restores() {
    let mut m = NngMsg::new().unwrap();
    m.header_append_slice(&[4]).unwrap();
    m.append_slice(&[9, 8]).unwrap();
    let before = m.dup().unwrap();
    m.insert_slice(&[1, 2, 3]).unwrap();
    m.trim(3).unwrap();
    assert!(m == before);
    m.header_insert_slice(&[5, 6]).unwrap();
    m.header_trim(2).unwrap();
    assert!(m == before);
}

#[test]
fn dup_and_equality() {
    let mut m = NngMsg::new().unwrap();
    m.header_append_slice(&[1]).unwrap();
    m.append_slice(&[2, 3]).unwrap();
    let d = m.dup().unwrap();
    assert!(d == m);
    assert_eq!(d.header(), &[1]);
    assert_eq!(d.body(), &[2, 3]);
    let mut other = d.clone();
    other.append_slice(&[4]).unwrap();
    assert!(other != m);
    let mut header_differs = m.dup().unwrap();
    header_differs.header_chop(1).unwrap();
    assert!(header_differs != m);
}

#[test]
fn equality_ignores_pipe() {
    let mut a = NngMsg::new().unwrap();
    a.append_slice(&[1]).unwrap();
    let mut b = a.dup().unwrap();
    b.set_pipe_handle(nng_pipe { id: 3 });
    assert!(a == b);
}

#[test]
fn clear_empties_body_only() {
    let mut m = NngMsg::new().unwrap();
    m.header_append_slice(&[1, 2]).unwrap();
    m.append_slice(&[3]).unwrap();
    m.clear();
    assert!(m.is_empty());
    assert_eq!(m.header(), &[1, 2]);
}

#[test]
fn pipe_of_message() {
    let mut m = NngMsg::new().unwrap();
    assert!(m.get_pipe().is_none());
    m.set_pipe_handle(nng_pipe { id: 3 });
    let p: NngPipe = m.get_pipe().unwrap();
    assert_eq!(p.id(), 3);
    assert_eq!(p.nng_pipe(), nng_pipe { id: 3 });
    let mut other = NngMsg::new().unwrap();
    other.set_pipe(&p);
    assert_eq!(other.pipe_handle(), nng_pipe { id: 3 });
    m.set_pipe_handle(nng_pipe { id: 0x8000_0000 });
    assert!(m.get_pipe().is_none());
    assert!(NngPipe::new(&m).is_none());
}

#[test]
fn pipe_event_try_from() {
    assert_eq!(NngPipeEv::try_from(0), Ok(NngPipeEv::AddPre));
    assert_eq!(NngPipeEv::try_from(1), Ok(NngPipeEv::AddPost));
    assert_eq!(NngPipeEv::try_from(2), Ok(NngPipeEv::RemPost));
    assert_eq!(NngPipeEv::try_from(3), Err(EnumFromIntError(3)));
}

#[test]
fn builder_appends_u32_big_endian() {
    let msg = MsgBuilder::default().append_u32(0).build().unwrap();
    assert_eq!(msg.body(), &[0, 0, 0, 0]);
    let mut builder = MsgBuilder::default();
    builder.append_u32(0x0102_0304).append_u32(0xdead_beef);
    let msg = builder.build().unwrap();
    assert_eq!(msg.body(), &[1, 2, 3, 4, 0xde, 0xad, 0xbe, 0xef]);
    assert_eq!(msg.header_len(), 0);
}

#[test]
fn builder_append_slice_vec_and_clean() {
    let mut builder = MsgBuilder::default();
    let mut more = vec![3u8, 4];
    builder.append_slice(&[1, 2]).append_vec(&mut more);
    assert!(more.is_empty());
    assert_eq!(builder.build().unwrap().body(), &[1, 2, 3, 4]);
    builder.clean();
    let msg = builder.build().unwrap();
    assert!(msg.is_empty());
    assert_eq!(msg.header_len(), 0);
}

#[test]
fn pipe_owners_from_native_queries() {
    let mut m = NngMsg::new().unwrap();
    m.set_pipe_handle(nng_pipe { id: 9 });
    let p = m.get_pipe().unwrap();
    let socket = p.socket(|pipe| {
        assert_eq!(pipe, nng_pipe { id: 9 });
        nng_socket { id: 4 }
    });
    assert_eq!(socket.unwrap().id(), 4);
    assert!(p.socket(|_| nng_socket { id: 0 }).is_none());
    assert_eq!(p.dialer(|_| nng_dialer { id: 7 }).unwrap().id(), 7);
    assert!(p.dialer(|_| nng_dialer { id: 0 }).is_none());
    assert_eq!(p.listener(|_| nng_listener { id: 8 }).unwrap().id(), 8);
    assert!(p.listener(|_| nng_listener { id: 0xffff_ffff }).is_none());
}
