//! The foreign `std::string`, held as its bytes.
use vstd::prelude::*;
use vstd::utf8::{valid_utf8, decode_utf8, encode_utf8_decode_utf8, encode_utf8_valid_utf8};
use vstd::string::StringSliceAdditionalSpecFns;

verus! {

/// Relies on `std::str::from_utf8`: it accepts exactly the well-formed UTF-8
/// byte sequences, and the text it returns is those same bytes.
#[verifier::external_body]
fn utf8_text(b: &[u8]) -> (r: Option<&str>)
    ensures
        r.is_some() == valid_utf8(b@),
        r matches Some(s) ==> s.spec_bytes() == b@,
{
    std::str::from_utf8(b).ok()
}

/// An exclusively owned foreign string: a sequence of bytes that the
/// foreign library keeps UTF-8 on the paths where it is read as text.
pub struct String {
    bytes: Vec<u8>,
}

impl View for String {
    type V = Seq<u8>;

    closed spec fn view(&self) -> Seq<u8> {
        self.bytes@
    }
}

impl String {
    /// The empty string.
    pub fn default() -> (r: String)
        ensures
            r@ == Seq::<u8>::empty(),
    {
        String { bytes: Vec::new() }
    }

    /// A string holding exactly the bytes of `string`: the storage is sized
    /// to the byte length and the bytes are copied in.
    pub fn new(string: &str) -> (r: String)
        ensures
            r@ == string.spec_bytes(),
            valid_utf8(r@),
            decode_utf8(r@) == string@,
    {
        let src = string.as_bytes();
        let mut cpp_string = String::default();
        cpp_string.resize(src.len());
        let mut i: usize = 0;
        while i < src.len()
            invariant
                0 <= i <= src@.len(),
                cpp_string@.len() == src@.len(),
                forall|j: int| 0 <= j < i ==> cpp_string@[j] == src@[j],
            decreases src@.len() - i,
        {
            cpp_string.bytes.set(i, src[i]);
            i = i + 1;
        }
        assert(cpp_string@ =~= src@);
        proof {
            encode_utf8_valid_utf8(string@);
            encode_utf8_decode_utf8(string@);
        }
        cpp_string
    }

    /// A string holding the given bytes.
    pub fn from_bytes(bytes: Vec<u8>) -> (r: String)
        ensures
            r@ == bytes@,
    {
        String { bytes }
    }

    /// Sets the length to `new_len`: a longer string is padded with zero
    /// bytes, a shorter one keeps its first `new_len` bytes.
    pub fn resize(&mut self, new_len: usize)
        ensures
            final(self)@.len() == new_len,
            new_len <= old(self)@.len() ==> final(self)@ == old(self)@.subrange(0, new_len as int),
            new_len > old(self)@.len() ==> final(self)@ == old(self)@ + Seq::new(
                (new_len - old(self)@.len()) as nat,
                |_i: int| 0u8,
            ),
    {
        if new_len <= self.bytes.len() {
            self.bytes.truncate(new_len);
        } else {
            let ghost start = self.bytes@;
            while self.bytes.len() < new_len
                invariant
                    start.len() <= self.bytes@.len() <= new_len,
                    self.bytes@.subrange(0, start.len() as int) == start,
                    forall|j: int| start.len() <= j < self.bytes@.len() ==> self.bytes@[j] == 0u8,
                decreases new_len - self.bytes@.len(),
            {
                self.bytes.push(0u8);
            }
            assert(self.bytes@ =~= start + Seq::new((new_len - start.len()) as nat, |_i: int| 0u8));
        }
    }

    /// The number of bytes.
    pub fn len(&self) -> (r: usize)
        ensures
            r == self@.len(),
    {
        self.bytes.len()
    }

    /// The bytes.
    pub fn as_slice(&self) -> (r: &[u8])
        ensures
            r@ == self@,
    {
        self.bytes.as_slice()
    }

    /// The bytes read as text. Bytes that are not UTF-8 break the foreign
    /// library's promise on these paths, so they are ruled out.
    pub fn as_str(&self) -> (r: &str)
        requires
            valid_utf8(self@),
        ensures
            r.spec_bytes() == self@,
            r@ == decode_utf8(self@),
    {
        match utf8_text(self.bytes.as_slice()) {
            Some(s) => {
                proof {
                    encode_utf8_decode_utf8(s@);
                }
                s
            },
            None => {
                proof {
                    assert(false);
                }
                ""
            },
        }
    }
}

} // verus!
