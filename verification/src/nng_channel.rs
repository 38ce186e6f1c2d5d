//! A byte channel over a socket for the Thrift transport: writes collect
//! into one message that is sent on flush; reads consume a received message.

use vstd::prelude::*;
use crate::msg::{is_fresh, MsgModel, NngMsg};
use crate::result::Result;
use crate::socket::NngSocket;
use crate::sys::nng_socket;

verus! {

/// A channel over a socket: the message being written or read, and the
/// socket it goes to or comes from.
pub struct TNngChannel {
    message: NngMsg,
    socket: NngSocket,
}

impl TNngChannel {
    /// The body of the message held.
    pub closed spec fn pending(&self) -> Seq<u8> {
        self.message@.body
    }

    /// The whole message held: header, body and pipe.
    pub closed spec fn held(&self) -> MsgModel {
        self.message@
    }

    /// The socket of the channel.
    pub closed spec fn socket_spec(&self) -> nng_socket {
        self.socket@
    }

    /// A channel over `socket` holding an empty message.
    pub fn new(socket: NngSocket) -> (r: Result<TNngChannel>)
        ensures
            r matches Ok(c) && c.pending() == Seq::<u8>::empty() && is_fresh(c.held(), 0)
                && c.socket_spec() == socket@,
    {
        let message = NngMsg::new()?;
        Ok(TNngChannel { message, socket })
    }

    /// Two channels over the same socket: this one, to read, and a new one,
    /// to write.
    pub fn split(self) -> (r: Result<(TNngChannel, TNngChannel)>)
        ensures
            r matches Ok(halves) && halves.0 == self && halves.1.pending() == Seq::<u8>::empty()
                && is_fresh(halves.1.held(), 0) && halves.1.socket_spec() == self.socket_spec(),
    {
        let clone = TNngChannel::new(self.socket.clone())?;
        Ok((self, clone))
    }

    /// The socket of the channel.
    pub fn socket(&self) -> (r: &NngSocket)
        ensures
            r@ == self.socket_spec(),
    {
        &self.socket
    }

    /// Whether the message held is used up (a read must then receive one).
    pub fn is_empty(&self) -> (r: bool)
        ensures
            r == (self.pending().len() == 0),
    {
        self.message.is_empty()
    }

    /// The number of bytes of the message held.
    pub fn len(&self) -> (r: usize)
        ensures
            r == self.pending().len(),
    {
        self.message.len()
    }

    /// Hold `message`, received from the socket, for reading.
    pub fn set_message(&mut self, message: NngMsg)
        ensures
            final(self).pending() == message@.body,
            final(self).held() == message@,
            final(self).socket_spec() == old(self).socket_spec(),
    {
        self.message = message;
    }

    /// Read `buf.len()` bytes from the front of the message held into
    /// `buf`, and drop them from the message.
    pub fn read_buffered(&mut self, buf: &mut [u8]) -> (r: usize)
        requires
            old(buf)@.len() <= old(self).pending().len(),
        ensures
            r == old(buf)@.len(),
            final(buf)@ == old(self).pending().subrange(0, r as int),
            final(self).pending() == old(self).pending().subrange(r as int, old(self).pending().len() as int),
            final(self).held().header == old(self).held().header,
            final(self).held().pipe == old(self).held().pipe,
            final(self).socket_spec() == old(self).socket_spec(),
    {
        let n: usize = buf.len();
        let mut i: usize = 0;
        while i < n
            invariant
                n == buf@.len(),
                n <= self.message@.body.len(),
                i <= n,
                forall|j: int| 0 <= j < i ==> buf@[j] == self.message@.body[j],
            decreases n - i,
        {
            let b: u8 = self.message.as_slice()[i];
            buf[i] = b;
            i = i + 1;
        }
        assert(buf@ =~= old(self).pending().subrange(0, n as int));
        let _trimmed = self.message.trim(n);
        n
    }

    /// Append `buf` to the message being written.
    pub fn write(&mut self, buf: &[u8]) -> (r: usize)
        ensures
            r == buf@.len(),
            final(self).pending() == old(self).pending() + buf@,
            final(self).held().header == old(self).held().header,
            final(self).held().pipe == old(self).held().pipe,
            final(self).socket_spec() == old(self).socket_spec(),
    {
        let _appended = self.message.append_slice(buf);
        buf.len()
    }

    /// The message written so far, to be sent on the socket; the channel
    /// holds a new, empty message.
    pub fn flush(&mut self) -> (r: Result<NngMsg>)
        ensures
            r matches Ok(m) && m@ == old(self).held() && m@.body == old(self).pending()
                && final(self).pending() == Seq::<u8>::empty() && is_fresh(final(self).held(), 0),
            final(self).socket_spec() == old(self).socket_spec(),
    {
        let mut msg = NngMsg::new()?;
        core::mem::swap(&mut self.message, &mut msg);
        Ok(msg)
    }
}

/// Writes accumulate in order: a channel whose pending bytes are the pieces
/// written so far, one after the other, holds after `write` of one more
/// piece the pieces with that one added at the end.
pub proof fn lemma_writes_accumulate(written: Seq<Seq<u8>>, piece: Seq<u8>)
    ensures
        written.flatten() + piece == written.push(piece).flatten(),
{
    written.lemma_flatten_push(piece);
}

/// Reads give back the writes: a channel holding the pieces written one
/// after the other (as `flush` hands them on and `set_message` takes them
/// in) reads, for as many bytes as the first piece, exactly that piece, and
/// then holds the remaining pieces.
pub proof fn lemma_reads_return_writes(written: Seq<Seq<u8>>)
    requires
        written.len() > 0,
    ensures
        written[0].len() <= written.flatten().len(),
        written.flatten().subrange(0, written[0].len() as int) == written[0],
        written.flatten().subrange(written[0].len() as int, written.flatten().len() as int)
            == written.drop_first().flatten(),
{
    let all = written.flatten();
    assert(all == written[0] + written.drop_first().flatten());
    assert(all.subrange(0, written[0].len() as int) =~= written[0]);
    assert(all.subrange(written[0].len() as int, all.len() as int) =~= written.drop_first().flatten());
}

} // verus!
