//! ASCII text held as checked bytes. A value of the main type can only be
//! built from bytes that were verified to be ASCII, so turning it back into
//! text never meets an ill-formed character.

use vstd::prelude::*;

verus! {

/// Every byte of `s` is ASCII: no greater than 0x7f.
pub open spec fn is_ascii_bytes(s: Seq<u8>) -> bool {
    forall|i: int| 0 <= i < s.len() ==> s[i] <= 0x7f
}

/// An ASCII-encoded string. It holds only well-formed ASCII text: bytes
/// from 0 to 0x7f.
#[derive(Debug, Eq, PartialEq)]
pub struct Ascii(Vec<u8>);

/// The conversion failed; gives back the vector that could not be
/// converted.
#[derive(Debug, Eq, PartialEq)]
pub struct NotAsciiError(pub Vec<u8>);

impl View for Ascii {
    type V = Seq<u8>;

    closed spec fn view(&self) -> Seq<u8> {
        self.0@
    }
}

impl Ascii {
    /// Create an `Ascii` from the ASCII text in `bytes`. Return a
    /// `NotAsciiError` holding the original bytes if any byte is not ASCII.
    pub fn from_bytes(bytes: Vec<u8>) -> (r: Result<Ascii, NotAsciiError>)
        ensures
            is_ascii_bytes(bytes@) ==> (r matches Ok(a) && a@ == bytes@),
            !is_ascii_bytes(bytes@) ==> (r matches Err(e) && e.0@ == bytes@),
    {
        let mut i: usize = 0;
        while i < bytes.len()
            invariant
                i <= bytes@.len(),
                forall|j: int| 0 <= j < i ==> bytes@[j] <= 0x7f,
            decreases bytes@.len() - i,
        {
            if bytes[i] > 0x7f {
                return Err(NotAsciiError(bytes));
            }
            i = i + 1;
        }
        Ok(Ascii(bytes))
    }

    /// The held text as a `String`: each ASCII byte becomes the character
    /// with that code.
    pub fn to_text(&self) -> (s: String)
        ensures
            s@ == self@.map_values(|b: u8| b as char),
    {
        let mut s = String::new();
        let mut i: usize = 0;
        while i < self.0.len()
            invariant
                i <= self@.len(),
                s@ == self@.take(i as int).map_values(|b: u8| b as char),
            decreases self@.len() - i,
        {
            let b = self.0[i];
            s.push(b as char);
            i = i + 1;
            proof {
                assert(s@ =~= self@.take(i as int).map_values(|b: u8| b as char));
            }
        }
        proof {
            assert(self@.take(self@.len() as int) =~= self@);
        }
        s
    }
}

/// Safe conversion into text; the result is pinned down by `Ascii::to_text`,
/// which this calls.
impl From<Ascii> for String {
    fn from(ascii: Ascii) -> (s: String) {
        ascii.to_text()
    }
}

impl vstd::std_specs::convert::FromSpecImpl<Ascii> for String {
    open spec fn obeys_from_spec() -> bool {
        false
    }

    open spec fn from_spec(a: Ascii) -> String {
        arbitrary()
    }
}

} // verus!
