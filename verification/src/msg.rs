//! Messages: a header and a body of bytes, and the pipe they came from.

use vstd::prelude::*;
use crate::bytes::{append_bytes, bytes_equal, copy_bytes, zeroed_bytes};
use crate::pipe::NngPipe;
use crate::result::{Error, NngErrno, Result};
use crate::sys::nng_pipe;

verus! {

/// What a message holds.
pub struct MsgModel {
    pub header: Seq<u8>,
    pub body: Seq<u8>,
    pub pipe: nng_pipe,
}

/// A message: header bytes, body bytes and the pipe it is associated with.
#[derive(Debug)]
pub struct NngMsg {
    header: Vec<u8>,
    body: Vec<u8>,
    pipe: nng_pipe,
}

impl View for NngMsg {
    type V = MsgModel;

    closed spec fn view(&self) -> MsgModel {
        MsgModel { header: self.header@, body: self.body@, pipe: self.pipe }
    }
}

/// The error a message operation reports for a size larger than the
/// part it works on.
pub open spec fn invalid_size() -> Error {
    Error::Errno(NngErrno::EINVAL)
}

/// A newly allocated message: no header, a body of `size` bytes, and no pipe.
pub open spec fn is_fresh(m: MsgModel, size: nat) -> bool {
    &&& m.header == Seq::<u8>::empty()
    &&& m.body.len() == size
    &&& m.pipe.id == 0
}

impl NngMsg {
    /// Create an empty message.
    pub fn new() -> (r: Result<NngMsg>)
        ensures
            r matches Ok(m) && is_fresh(m@, 0) && m@.body == Seq::<u8>::empty(),
    {
        NngMsg::with_capacity(0)
    }

    /// Create a message whose body is `size_bytes` long.  What the body
    /// holds is not specified.
    pub fn with_capacity(size_bytes: usize) -> (r: Result<NngMsg>)
        ensures
            r matches Ok(m) && is_fresh(m@, size_bytes as nat),
    {
        Ok(NngMsg { header: Vec::new(), body: zeroed_bytes(size_bytes), pipe: nng_pipe { id: 0 } })
    }

    /// Create an empty message (older name of `new`).
    pub fn create() -> (r: Result<NngMsg>)
        ensures
            r matches Ok(m) && is_fresh(m@, 0) && m@.body == Seq::<u8>::empty(),
    {
        NngMsg::new()
    }

    /// Create a message whose body is `size_bytes` long (older name of
    /// `with_capacity`).
    pub fn with_size(size_bytes: usize) -> (r: Result<NngMsg>)
        ensures
            r matches Ok(m) && is_fresh(m@, size_bytes as nat),
    {
        NngMsg::with_capacity(size_bytes)
    }

    /// The body.
    pub fn as_slice(&self) -> (r: &[u8])
        ensures
            r@ == self@.body,
    {
        self.body.as_slice()
    }

    /// The body.
    pub fn body(&self) -> (r: &[u8])
        ensures
            r@ == self@.body,
    {
        self.body.as_slice()
    }

    /// The header.
    pub fn header(&self) -> (r: &[u8])
        ensures
            r@ == self@.header,
    {
        self.header.as_slice()
    }

    /// Length of the header.
    pub fn header_len(&self) -> (r: usize)
        ensures
            r == self@.header.len(),
    {
        self.header.len()
    }

    /// Length of the body.
    pub fn len(&self) -> (r: usize)
        ensures
            r == self@.body.len(),
    {
        self.body.len()
    }

    /// Whether the body is empty.
    pub fn is_empty(&self) -> (r: bool)
        ensures
            r == (self@.body.len() == 0),
    {
        self.body.len() == 0
    }

    /// Append `data` to the body.
    pub fn append_slice(&mut self, data: &[u8]) -> (r: Result<()>)
        ensures
            r is Ok,
            final(self)@.body == old(self)@.body + data@,
            final(self)@.header == old(self)@.header,
            final(self)@.pipe == old(self)@.pipe,
    {
        append_bytes(&mut self.body, data);
        Ok(())
    }

    /// Insert `data` at the front of the body.
    pub fn insert_slice(&mut self, data: &[u8]) -> (r: Result<()>)
        ensures
            r is Ok,
            final(self)@.body == data@ + old(self)@.body,
            final(self)@.header == old(self)@.header,
            final(self)@.pipe == old(self)@.pipe,
    {
        let mut front = copy_bytes(data);
        front.append(&mut self.body);
        self.body = front;
        Ok(())
    }

    /// Remove `size` bytes from the front of the body.  Fails with
    /// `EINVAL`, leaving the message unchanged, if the body is shorter.
    pub fn trim(&mut self, size: usize) -> (r: Result<()>)
        ensures
            size <= old(self)@.body.len() ==> r is Ok
                && final(self)@.body == old(self)@.body.subrange(size as int, old(self)@.body.len() as int),
            size > old(self)@.body.len() ==> r == Err::<(), Error>(invalid_size())
                && final(self)@.body == old(self)@.body,
            final(self)@.header == old(self)@.header,
            final(self)@.pipe == old(self)@.pipe,
    {
        if size > self.body.len() {
            return Err(Error::Errno(NngErrno::EINVAL));
        }
        let rest = self.body.split_off(size);
        self.body = rest;
        Ok(())
    }

    /// Remove `size` bytes from the end of the body.  Fails with
    /// `EINVAL`, leaving the message unchanged, if the body is shorter.
    pub fn chop(&mut self, size: usize) -> (r: Result<()>)
        ensures
            size <= old(self)@.body.len() ==> r is Ok
                && final(self)@.body == old(self)@.body.subrange(0, old(self)@.body.len() - size),
            size > old(self)@.body.len() ==> r == Err::<(), Error>(invalid_size())
                && final(self)@.body == old(self)@.body,
            final(self)@.header == old(self)@.header,
            final(self)@.pipe == old(self)@.pipe,
    {
        let len: usize = self.body.len();
        if size > len {
            return Err(Error::Errno(NngErrno::EINVAL));
        }
        self.body.truncate(len - size);
        Ok(())
    }

    /// Append `data` to the header.
    pub fn header_append_slice(&mut self, data: &[u8]) -> (r: Result<()>)
        ensures
            r is Ok,
            final(self)@.header == old(self)@.header + data@,
            final(self)@.body == old(self)@.body,
            final(self)@.pipe == old(self)@.pipe,
    {
        append_bytes(&mut self.header, data);
        Ok(())
    }

    /// Insert `data` at the front of the header.
    pub fn header_insert_slice(&mut self, data: &[u8]) -> (r: Result<()>)
        ensures
            r is Ok,
            final(self)@.header == data@ + old(self)@.header,
            final(self)@.body == old(self)@.body,
            final(self)@.pipe == old(self)@.pipe,
    {
        let mut front = copy_bytes(data);
        front.append(&mut self.header);
        self.header = front;
        Ok(())
    }

    /// Remove `size` bytes from the front of the header.  Fails with
    /// `EINVAL`, leaving the message unchanged, if the header is shorter.
    pub fn header_trim(&mut self, size: usize) -> (r: Result<()>)
        ensures
            size <= old(self)@.header.len() ==> r is Ok
                && final(self)@.header == old(self)@.header.subrange(size as int, old(self)@.header.len() as int),
            size > old(self)@.header.len() ==> r == Err::<(), Error>(invalid_size())
                && final(self)@.header == old(self)@.header,
            final(self)@.body == old(self)@.body,
            final(self)@.pipe == old(self)@.pipe,
    {
        if size > self.header.len() {
            return Err(Error::Errno(NngErrno::EINVAL));
        }
        let rest = self.header.split_off(size);
        self.header = rest;
        Ok(())
    }

    /// Remove `size` bytes from the end of the header.  Fails with
    /// `EINVAL`, leaving the message unchanged, if the header is shorter.
    pub fn header_chop(&mut self, size: usize) -> (r: Result<()>)
        ensures
            size <= old(self)@.header.len() ==> r is Ok
                && final(self)@.header == old(self)@.header.subrange(0, old(self)@.header.len() - size),
            size > old(self)@.header.len() ==> r == Err::<(), Error>(invalid_size())
                && final(self)@.header == old(self)@.header,
            final(self)@.body == old(self)@.body,
            final(self)@.pipe == old(self)@.pipe,
    {
        let len: usize = self.header.len();
        if size > len {
            return Err(Error::Errno(NngErrno::EINVAL));
        }
        self.header.truncate(len - size);
        Ok(())
    }

    /// A copy of the message: same header, body and pipe.
    pub fn dup(&self) -> (r: Result<NngMsg>)
        ensures
            r matches Ok(m) && m@ == self@,
    {
        Ok(NngMsg {
            header: copy_bytes(self.header.as_slice()),
            body: copy_bytes(self.body.as_slice()),
            pipe: self.pipe,
        })
    }

    /// Empty the body; the header and the pipe are kept.
    pub fn clear(&mut self)
        ensures
            final(self)@.body == Seq::<u8>::empty(),
            final(self)@.header == old(self)@.header,
            final(self)@.pipe == old(self)@.pipe,
    {
        self.body.clear();
    }

    /// The pipe the message is associated with, if it has one.
    pub fn get_pipe(&self) -> (r: Option<NngPipe>)
        ensures
            crate::sys::handle_id(self@.pipe.id) <= 0 ==> r is None,
            crate::sys::handle_id(self@.pipe.id) > 0 ==> (r matches Some(p) && p@ == self@.pipe),
    {
        NngPipe::new(self)
    }

    /// Associate the message with a pipe.
    pub fn set_pipe(&mut self, pipe: &NngPipe)
        ensures
            final(self)@.pipe == pipe@,
            final(self)@.header == old(self)@.header,
            final(self)@.body == old(self)@.body,
    {
        self.pipe = pipe.nng_pipe();
    }

    /// Associate the message with the pipe whose handle is `pipe`, as
    /// reported for a message received from NNG.
    pub fn set_pipe_handle(&mut self, pipe: nng_pipe)
        ensures
            final(self)@.pipe == pipe,
            final(self)@.header == old(self)@.header,
            final(self)@.body == old(self)@.body,
    {
        self.pipe = pipe;
    }

    /// The pipe handle stored in the message.
    pub fn pipe_handle(&self) -> (r: nng_pipe)
        ensures
            r == self@.pipe,
    {
        self.pipe
    }
}

/// Appending bytes to a body (or a header) and then chopping as many from
/// its end gives back what it held.
pub proof fn lemma_append_then_chop(part: Seq<u8>, data: Seq<u8>)
    ensures
        data.len() <= (part + data).len(),
        (part + data).subrange(0, (part + data).len() - data.len()) == part,
{
    assert((part + data).subrange(0, (part + data).len() - data.len()) =~= part);
}

/// Inserting bytes at the front of a body (or a header) and then trimming
/// as many from its front gives back what it held.
pub proof fn lemma_insert_then_trim(part: Seq<u8>, data: Seq<u8>)
    ensures
        data.len() <= (data + part).len(),
        (data + part).subrange(data.len() as int, (data + part).len() as int) == part,
{
    assert((data + part).subrange(data.len() as int, (data + part).len() as int) =~= part);
}

/// Trimming `a` bytes and then `b` bytes is trimming `a + b` bytes.
pub proof fn lemma_trim_twice(part: Seq<u8>, a: int, b: int)
    requires
        0 <= a,
        0 <= b,
        a + b <= part.len(),
    ensures
        part.subrange(a, part.len() as int).subrange(b, part.len() - a) == part.subrange(a + b, part.len() as int),
{
    assert(part.subrange(a, part.len() as int).subrange(b, part.len() - a) =~= part.subrange(a + b, part.len() as int));
}

impl Clone for NngMsg {
    fn clone(&self) -> (r: NngMsg)
        ensures
            r@ == self@,
    {
        NngMsg {
            header: copy_bytes(self.header.as_slice()),
            body: copy_bytes(self.body.as_slice()),
            pipe: self.pipe,
        }
    }
}

impl PartialEq for NngMsg {
    fn eq(&self, other: &NngMsg) -> (r: bool) {
        bytes_equal(self.header.as_slice(), other.header.as_slice()) && bytes_equal(
            self.body.as_slice(),
            other.body.as_slice(),
        )
    }
}

impl vstd::std_specs::cmp::PartialEqSpecImpl for NngMsg {
    open spec fn obeys_eq_spec() -> bool {
        true
    }

    open spec fn eq_spec(&self, other: &NngMsg) -> bool {
        self@.header == other@.header && self@.body == other@.body
    }
}

} // verus!
