//! Names of 32 bytes, by which content-addressed data is found.

use crate::fixed::{array_exact, array_of, vec_of};
use crate::hexcode::{
    decode_exact, decode_exact_outcome, encode, hex_encoding, text_bytes, HexError,
};
use vstd::prelude::*;

verus! {

/// The number of bytes in a name.
pub const XOR_NAME_LEN: usize = 32;

/// A name of exactly `XOR_NAME_LEN` bytes.
#[derive(Clone, Copy, Debug)]
pub struct XorName {
    bytes: [u8; 32],
}

impl View for XorName {
    type V = Seq<u8>;

    closed spec fn view(&self) -> Seq<u8> {
        self.bytes@
    }
}

impl XorName {
    /// Every name has `XOR_NAME_LEN` bytes.
    pub proof fn lemma_len(self)
        ensures
            self@.len() == XOR_NAME_LEN,
    {
    }

    /// Two names with the same bytes are the same name.
    pub proof fn lemma_ext_equal(self, other: XorName)
        requires
            self@ == other@,
        ensures
            self == other,
    {
        assert(self.bytes =~= other.bytes);
    }

    /// The name made of the 32 bytes `bytes`.
    pub fn from_array(bytes: [u8; 32]) -> (name: XorName)
        ensures
            name@ == bytes@,
    {
        XorName { bytes }
    }

    /// The 32 bytes of the name.
    pub fn to_array(&self) -> (bytes: [u8; 32])
        ensures
            bytes@ == self@,
    {
        self.bytes
    }

    /// The name that `bytes` spells; `None` unless there are exactly
    /// `XOR_NAME_LEN` of them.
    pub fn from_vec(bytes: &Vec<u8>) -> (r: Option<XorName>)
        ensures
            r is Some <==> bytes@.len() == XOR_NAME_LEN,
            r matches Some(name) ==> name@ == bytes@,
    {
        match array_of::<32>(bytes) {
            Some(array) => Some(XorName { bytes: array }),
            None => None,
        }
    }

    /// The bytes of the name.
    pub fn to_vec(&self) -> (bytes: Vec<u8>)
        ensures
            bytes@ == self@,
            bytes@.len() == XOR_NAME_LEN,
    {
        vec_of(&self.bytes)
    }

    /// The name as 64 lower-case hexadecimal digits.
    pub fn to_hex(&self) -> (text: String)
        ensures
            text@ == hex_encoding(self@),
    {
        let bytes = self.to_vec();
        encode(&bytes)
    }

    /// The name that the hexadecimal text `text` spells. The text must be 64
    /// digits of either case; any other text is refused with the reason.
    pub fn from_hex(text: &str) -> (r: Result<XorName, HexError>)
        ensures
            decode_exact_outcome(
                text_bytes(text@),
                XOR_NAME_LEN as int,
                match r {
                    Ok(name) => Ok(name@),
                    Err(e) => Err(e),
                },
            ),
    {
        match decode_exact(text, XOR_NAME_LEN) {
            Ok(bytes) => Ok(XorName { bytes: array_exact::<32>(&bytes) }),
            Err(e) => Err(e),
        }
    }
}

} // verus!
