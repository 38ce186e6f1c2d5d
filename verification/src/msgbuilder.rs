//! Building messages with a fluent API.

use vstd::prelude::*;
use byteorder::ByteOrder;
use crate::bytes::append_bytes;
use crate::msg::{is_fresh, NngMsg};
use crate::result::Result;

verus! {

/// The four bytes of `n`, most significant first.
pub open spec fn be_u32_bytes(n: u32) -> Seq<u8> {
    seq![
        (n / 0x100_0000) as u8,
        ((n / 0x1_0000) % 0x100) as u8,
        ((n / 0x100) % 0x100) as u8,
        (n % 0x100) as u8,
    ]
}

/// Calls `byteorder::BigEndian::write_u32` on a buffer of four bytes, which
/// writes `n` into it most significant byte first.
#[verifier::external_body]
fn write_u32_big_endian(n: u32) -> (r: [u8; 4])
    ensures
        r@ == be_u32_bytes(n),
{
    let mut buf = [0u8; 4];
    byteorder::BigEndian::write_u32(&mut buf, n);
    buf
}

/// Builds an `NngMsg` from a header and a body collected piece by piece.
pub struct MsgBuilder {
    header: Vec<u8>,
    body: Vec<u8>,
}

impl View for MsgBuilder {
    /// The header and the body collected so far.
    type V = (Seq<u8>, Seq<u8>);

    closed spec fn view(&self) -> (Seq<u8>, Seq<u8>) {
        (self.header@, self.body@)
    }
}

impl Default for MsgBuilder {
    fn default() -> (r: MsgBuilder)
        ensures
            r@ == (Seq::<u8>::empty(), Seq::<u8>::empty()),
    {
        MsgBuilder { header: Vec::new(), body: Vec::new() }
    }
}

impl MsgBuilder {
    /// Append `data` to the body, most significant byte first.
    pub fn append_u32(&mut self, data: u32) -> (r: &mut MsgBuilder)
        ensures
            r@.0 == old(self)@.0,
            r@.1 == old(self)@.1 + be_u32_bytes(data),
            *final(self) == *final(r),
    {
        let bytes = write_u32_big_endian(data);
        self.append_slice(&bytes)
    }

    /// Append `data` to the body.
    pub fn append_slice(&mut self, data: &[u8]) -> (r: &mut MsgBuilder)
        ensures
            r@.0 == old(self)@.0,
            r@.1 == old(self)@.1 + data@,
            *final(self) == *final(r),
    {
        append_bytes(&mut self.body, data);
        self
    }

    /// Move the bytes of `data` to the end of the body, leaving `data` empty.
    pub fn append_vec(&mut self, data: &mut Vec<u8>) -> (r: &mut MsgBuilder)
        ensures
            r@.0 == old(self)@.0,
            r@.1 == old(self)@.1 + old(data)@,
            final(data)@ == Seq::<u8>::empty(),
            *final(self) == *final(r),
    {
        self.body.append(data);
        self
    }

    /// Create an `NngMsg` holding the header and the body of this builder.
    pub fn build(&self) -> (r: Result<NngMsg>)
        ensures
            r matches Ok(m) && m@.header == self@.0 && m@.body == self@.1 && m@.pipe.id == 0,
    {
        let mut msg = NngMsg::new()?;
        let len: usize = self.header.len();
        if len > 0 {
            msg.header_append_slice(self.header.as_slice())?;
        }
        let len: usize = self.body.len();
        if len > 0 {
            msg.append_slice(self.body.as_slice())?;
        }
        proof {
            assert(msg@.header =~= self@.0);
            assert(msg@.body =~= self@.1);
        }
        Ok(msg)
    }

    /// Clear the builder, removing all bytes.
    pub fn clean(&mut self) -> (r: &mut MsgBuilder)
        ensures
            r@ == (Seq::<u8>::empty(), Seq::<u8>::empty()),
            *final(self) == *final(r),
    {
        self.header.clear();
        self.body.clear();
        self
    }
}

} // verus!
