use runng::msg::NngMsg;
use runng::nng_channel::TNngChannel;
use runng::sys::nng_socket;
use runng::NngSocket;

#[test]
fn channel_writes_then_flushes() {
    let mut c = TNngChannel::new(NngSocket::new(nng_socket { id: 1 })).unwrap();
    assert!(c.is_empty());
    assert_eq!(c.write(&[1, 2]), 2);
    assert_eq!(c.write(&[3]), 1);
    let msg = c.flush().unwrap();
    assert_eq!(msg.body(), &[1, 2, 3]);
    assert!(c.is_empty());
}

#[test]
fn channel_reads_received_message() {
    let mut c = TNngChannel::new(NngSocket::new(nng_socket { id: 1 })).unwrap();
    let mut m = NngMsg::new().unwrap();
    m.append_slice(&[10, 11, 12]).unwrap();
    c.set_message(m);
    let mut buf = [0u8; 2];
    assert_eq!(c.read_buffered(&mut buf), 2);
    assert_eq!(buf, [10, 11]);
    let mut rest = [0u8; 1];
    assert_eq!(c.read_buffered(&mut rest), 1);
    assert_eq!(rest, [12]);
    assert!(c.is_empty());
}

#[test]
fn channel_split_shares_socket() {
    let c = TNngChannel::new(NngSocket::new(nng_socket { id: 5 })).unwrap();
    let (read, write) = c.split().unwrap();
    assert_eq!(read.socket().nng_socket(), nng_socket { id: 5 });
    assert_eq!(write.socket().nng_socket(), nng_socket { id: 5 });
    assert!(write.is_empty());
}

#[test]
fn channel_reads_back_writes_in_order() {
    let mut writer = TNngChannel::new(NngSocket::new(nng_socket { id: 2 })).unwrap();
    writer.write(&[7, 8, 9]);
    writer.write(&[]);
    writer.write(&[4, 5]);
    let msg = writer.flush().unwrap();
    let mut reader = TNngChannel::new(NngSocket::new(nng_socket { id: 3 })).unwrap();
    reader.set_message(msg);
    let mut first = [0u8; 3];
    reader.read_buffered(&mut first);
    assert_eq!(first, [7, 8, 9]);
    let mut empty = [0u8; 0];
    assert_eq!(reader.read_buffered(&mut empty), 0);
    let mut last = [0u8; 2];
    reader.read_buffered(&mut last);
    assert_eq!(last, [4, 5]);
    assert_eq!(reader.len(), 0);
}

#[test]
fn channel_flush_hands_over_whole_message() {
    let mut c = TNngChannel::new(NngSocket::new(nng_socket { id: 1 })).unwrap();
    let mut m = NngMsg::new().unwrap();
    m.header_append_slice(&[9, 9]).unwrap();
    m.append_slice(&[1]).unwrap();
    c.set_message(m);
    c.write(&[2]);
    let out = c.flush().unwrap();
    assert_eq!(out.header(), &[9, 9]);
    assert_eq!(out.body(), &[1, 2]);
    let next = c.flush().unwrap();
    assert_eq!(next.header_len(), 0);
    assert!(next.is_empty());
}
