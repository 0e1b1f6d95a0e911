//! Fixed-width buffer and string conversion helpers.
//!
//! The host fills caller-provided byte buffers with null-terminated text;
//! [`StringBuffer`] is such a buffer, with conversions that trim at the
//! first null byte.

use vstd::prelude::*;
use vstd::slice::slice_subrange;
use vstd::string::StringExecFns;
use vstd::utf8::decode_utf8;
use vstd::utf8::valid_utf8;

verus! {

/// The bytes before the first null byte are not valid text
#[derive(Debug, Clone, Copy, PartialEq, Eq, Structural)]
pub struct EncodingError;

/// The index of the first null byte, or the length if there is none
pub open spec fn first_null(bytes: Seq<u8>) -> int
    decreases bytes.len(),
{
    if bytes.len() == 0 {
        0
    } else if bytes[0] == 0 {
        0
    } else {
        1 + first_null(bytes.drop_first())
    }
}

/// The first null byte's index is the unique position with no null byte
/// before it and a null byte (or the end) at it.
proof fn lemma_first_null_at(bytes: Seq<u8>, i: int)
    requires
        0 <= i <= bytes.len(),
        forall|j: int| 0 <= j < i ==> bytes[j] != 0,
        i == bytes.len() || bytes[i] == 0,
    ensures
        first_null(bytes) == i,
    decreases i,
{
    if i == 0 {
    } else {
        let rest = bytes.drop_first();
        assert forall|j: int| 0 <= j < i - 1 implies rest[j] != 0 by {
            assert(rest[j] == bytes[j + 1]);
        }
        if i - 1 < rest.len() {
            assert(rest[i - 1] == bytes[i]);
        }
        lemma_first_null_at(rest, i - 1);
    }
}

/// A fixed-length byte buffer that the host can fill with text and that
/// can be converted into a string
#[derive(Debug)]
pub struct StringBuffer {
    /// The bytes in this buffer
    bytes: Vec<u8>,
}

impl View for StringBuffer {
    type V = Seq<u8>;

    closed spec fn view(&self) -> Seq<u8> {
        self.bytes@
    }
}

impl StringBuffer {
    /// Creates a new StringBuffer with the provided length in bytes. All
    /// bytes in the buffer are set to null bytes.
    pub fn new(length: usize) -> (r: StringBuffer)
        ensures
            r@.len() == length,
            forall|i: int| 0 <= i < length ==> r@[i] == 0,
    {
        let mut bytes: Vec<u8> = Vec::new();
        let mut i: usize = 0;
        while i < length
            invariant
                0 <= i <= length,
                bytes@.len() == i,
                forall|j: int| 0 <= j < i ==> bytes@[j] == 0,
            decreases length - i,
        {
            bytes.push(0);
            i += 1;
        }
        StringBuffer { bytes }
    }

    /// Returns the bytes in this buffer
    pub fn as_bytes(&self) -> (r: &[u8])
        ensures
            r@ == self@,
    {
        self.bytes.as_slice()
    }

    /// Returns the byte storage of this buffer, for the host to fill
    pub fn as_bytes_mut(&mut self) -> (r: &mut Vec<u8>)
        ensures
            (*r)@ == old(self)@,
            final(self)@ == (*final(r))@,
    {
        &mut self.bytes
    }

    /// Returns a reference to the string in this buffer.
    ///
    /// The returned string holds the bytes before the first null byte. An
    /// error is returned if they are not valid UTF-8.
    pub fn as_str(&self) -> (r: Result<&str, EncodingError>)
        ensures
            match r {
                Ok(s) => valid_utf8(self@.take(first_null(self@))) && s@ == decode_utf8(
                    self@.take(first_null(self@)),
                ),
                Err(_) => !valid_utf8(self@.take(first_null(self@))),
            },
    {
        let i = find_null(self.as_bytes());
        let prefix = slice_subrange(self.bytes.as_slice(), 0, i);
        proof {
            assert(prefix@ =~= self@.take(first_null(self@)));
        }
        match str_from_utf8(prefix) {
            Some(s) => Ok(s),
            None => Err(EncodingError),
        }
    }

    /// Converts this buffer into a String.
    ///
    /// The returned string holds the bytes before the first null byte. An
    /// error is returned if they are not valid UTF-8.
    pub fn into_string(self) -> (r: Result<String, EncodingError>)
        ensures
            match r {
                Ok(s) => valid_utf8(self@.take(first_null(self@))) && s@ == decode_utf8(
                    self@.take(first_null(self@)),
                ),
                Err(_) => !valid_utf8(self@.take(first_null(self@))),
            },
    {
        match self.as_str() {
            Ok(s) => Ok(String::from_str(s)),
            Err(e) => Err(e),
        }
    }
}

/// The index of the first null byte in a buffer, or its length if it
/// holds none
fn find_null(bytes: &[u8]) -> (i: usize)
    ensures
        i == first_null(bytes@),
        i <= bytes@.len(),
{
    let mut i: usize = 0;
    while i < bytes.len()
        invariant
            0 <= i <= bytes@.len(),
            forall|j: int| 0 <= j < i ==> bytes@[j] != 0,
        decreases bytes@.len() - i,
    {
        if bytes[i] == 0 {
            proof {
                lemma_first_null_at(bytes@, i as int);
            }
            return i;
        }
        i += 1;
    }
    proof {
        lemma_first_null_at(bytes@, i as int);
    }
    i
}

/// Relies on str::from_utf8: it succeeds exactly on well-formed UTF-8 and
/// returns the decoded text over the same bytes.
#[verifier::external_body]
fn str_from_utf8(bytes: &[u8]) -> (r: Option<&str>)
    ensures
        r is Some <==> valid_utf8(bytes@),
        r matches Some(s) ==> s@ == decode_utf8(bytes@),
{
    core::str::from_utf8(bytes).ok()
}

} // verus!
