//! Memory handed to and received from NNG: raw allocations and strings.

use vstd::prelude::*;
use vstd::string::StringSliceAdditionalSpecFns;
use vstd::utf8::valid_utf8;
use crate::bytes::{bytes_equal, copy_bytes, zeroed_bytes};
use crate::result::{Error, Result};

verus! {

/// A block of memory for zero-copy sends and receives.
#[derive(Debug)]
pub struct Alloc {
    data: Vec<u8>,
}

impl View for Alloc {
    type V = Seq<u8>;

    closed spec fn view(&self) -> Seq<u8> {
        self.data@
    }
}

impl Alloc {
    /// A block of `size` bytes.  What the bytes hold is not specified.
    pub fn with_capacity(size: usize) -> (r: Option<Alloc>)
        ensures
            r matches Some(a) && a@.len() == size,
    {
        Some(Alloc { data: zeroed_bytes(size) })
    }

    /// A block holding a copy of `bytes`.
    pub fn new(bytes: Vec<u8>) -> (r: Option<Alloc>)
        ensures
            r matches Some(a) && a@ == bytes@,
    {
        let mut alloc = Alloc::with_capacity(bytes.len())?;
        alloc.data = copy_bytes(bytes.as_slice());
        Some(alloc)
    }

    /// The bytes of the block.
    pub fn as_slice(&self) -> (r: &[u8])
        ensures
            r@ == self@,
    {
        self.data.as_slice()
    }
}

impl Clone for Alloc {
    fn clone(&self) -> (r: Alloc)
        ensures
            r@ == self@,
    {
        Alloc { data: copy_bytes(self.data.as_slice()) }
    }
}

impl PartialEq for Alloc {
    fn eq(&self, other: &Alloc) -> (r: bool) {
        bytes_equal(self.data.as_slice(), other.data.as_slice())
    }
}

impl vstd::std_specs::cmp::PartialEqSpecImpl for Alloc {
    open spec fn obeys_eq_spec() -> bool {
        true
    }

    open spec fn eq_spec(&self, other: &Alloc) -> bool {
        self@ == other@
    }
}

/// `std::str::Utf8Error`, the error of a failed UTF-8 conversion, carried
/// through opaque.
#[verifier::external_type_specification]
#[verifier::external_body]
pub struct ExUtf8Error(std::str::Utf8Error);

/// Calls `std::str::from_utf8`, which succeeds exactly on valid UTF-8 and
/// then gives a string whose bytes are the input.
#[verifier::external_body]
fn str_from_utf8(bytes: &[u8]) -> (r: core::result::Result<&str, std::str::Utf8Error>)
    ensures
        r is Ok <==> valid_utf8(bytes@),
        r matches Ok(s) ==> s.spec_bytes() == bytes@,
{
    std::str::from_utf8(bytes)
}

/// The position of the first NUL byte in `bytes`, if there is one.
pub open spec fn first_nul(bytes: Seq<u8>) -> Option<int> {
    if exists|i: int| 0 <= i < bytes.len() && bytes[i] == 0 {
        Some(choose|i: int| 0 <= i < bytes.len() && bytes[i] == 0 && forall|j: int| 0 <= j < i ==> bytes[j] != 0)
    } else {
        None
    }
}

/// Finds the first NUL byte of `bytes`.
pub fn find_nul(bytes: &[u8]) -> (r: Option<usize>)
    ensures
        r matches Some(i) ==> first_nul(bytes@) == Some(i as int),
        r is None ==> first_nul(bytes@) is None,
{
    let n: usize = bytes.len();
    let mut i: usize = 0;
    while i < n
        invariant
            n == bytes@.len(),
            i <= n,
            forall|j: int| 0 <= j < i ==> bytes@[j] != 0,
        decreases n - i,
    {
        if bytes[i] == 0 {
            assert(0 <= i < bytes@.len() && bytes@[i as int] == 0 && forall|j: int| 0 <= j < i ==> bytes@[j] != 0);
            let ghost k = choose|k: int| 0 <= k < bytes@.len() && bytes@[k] == 0 && forall|j: int| 0 <= j < k ==> bytes@[j] != 0;
            assert(k == i) by {
                if k < i {
                    assert(bytes@[k] != 0);
                } else if k > i {
                    assert(bytes@[i as int] != 0);
                }
            }
            return Some(i);
        }
        i = i + 1;
    }
    None
}

/// An owned string without NUL bytes, as NNG hands strings around.
#[derive(Debug)]
pub struct NngString {
    bytes: Vec<u8>,
}

impl View for NngString {
    /// The bytes of the string, without the terminating NUL.
    type V = Seq<u8>;

    closed spec fn view(&self) -> Seq<u8> {
        self.bytes@
    }
}

impl NngString {
    /// Create a new string.  Fails with `Error::NulError` at the first NUL
    /// byte of `t`, if it holds one.
    pub fn new(t: Vec<u8>) -> (r: Result<NngString>)
        ensures
            first_nul(t@) matches Some(i) ==> r == Err::<NngString, Error>(Error::NulError(i as usize)),
            first_nul(t@) is None ==> (r matches Ok(s) && s@ == t@),
    {
        match find_nul(t.as_slice()) {
            Some(i) => Err(Error::NulError(i)),
            None => Ok(NngString { bytes: t }),
        }
    }

    /// Duplicate the string.
    pub fn dup(&self) -> (r: NngString)
        ensures
            r@ == self@,
    {
        NngString { bytes: copy_bytes(self.bytes.as_slice()) }
    }

    /// The string as `&str`, where its bytes are valid UTF-8.
    pub fn to_str(&self) -> (r: core::result::Result<&str, std::str::Utf8Error>)
        ensures
            r is Ok <==> valid_utf8(self@),
            r matches Ok(s) ==> s.spec_bytes() == self@,
    {
        str_from_utf8(self.bytes.as_slice())
    }
}

impl PartialEq for NngString {
    fn eq(&self, other: &NngString) -> (r: bool) {
        bytes_equal(self.bytes.as_slice(), other.bytes.as_slice())
    }
}

impl vstd::std_specs::cmp::PartialEqSpecImpl for NngString {
    open spec fn obeys_eq_spec() -> bool {
        true
    }

    open spec fn eq_spec(&self, other: &NngString) -> bool {
        self@ == other@
    }
}

impl Clone for NngString {
    fn clone(&self) -> (r: NngString)
        ensures
            r@ == self@,
    {
        self.dup()
    }
}

} // verus!
