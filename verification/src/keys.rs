//! BLS keys, held as their canonical bytes.
//!
//! A public key is the 48 bytes of a compressed point, a secret key the 32
//! bytes of a scalar in big-endian order. Which byte strings are keys, and
//! which public key belongs to a secret one, is for the `blsttc` crate to
//! say; the library names those answers and builds on them.

use crate::fixed::{array_of, vec_of};
use crate::hexcode::{
    encode, hex_decoding, hex_encoding, hex_spells, is_hex_text, text_bytes,
};
use crate::text::{decimal_text, join, owned, with_number};
use std::sync::Arc;
use vstd::prelude::*;

verus! {

/// The number of bytes of a secret key.
pub const SK_SIZE: usize = 32;

/// The number of bytes of a public key.
pub const PK_SIZE: usize = 48;

/// Whether `bytes` is the compressed form of a public key.
pub uninterp spec fn is_public_key(bytes: Seq<u8>) -> bool;

/// Whether `bytes` is the big-endian form of a secret key.
pub uninterp spec fn is_secret_key(bytes: Seq<u8>) -> bool;

/// The public key that belongs to the secret key `secret`.
pub uninterp spec fn public_key_of(secret: Seq<u8>) -> Seq<u8>;

/// Why a key operation was refused.
#[derive(Debug)]
pub enum KeyError {
    /// The bytes do not make the key asked for.
    InvalidKey { reason: String },
    /// The text or the bytes are no encoding of the key asked for.
    ParsingFailed { reason: String },
}

/// Why a text is no key.
#[derive(Clone, Copy, Debug)]
pub enum KeyFault {
    /// The text is no hexadecimal encoding.
    NotHex,
    /// The text is hexadecimal, but the bytes it spells are no key.
    InvalidBytes,
}

/// The reason given for a public key of `n` bytes where 48 are needed.
pub open spec fn public_key_length_reason(n: nat) -> Seq<char> {
    "PublicKey must be exactly 48 bytes, got "@ + decimal_text(n)
}

/// The reason given for a secret key of `n` bytes where 32 are needed.
pub open spec fn secret_key_length_reason(n: nat) -> Seq<char> {
    "SecretKey must be exactly 32 bytes, got "@ + decimal_text(n)
}

/// The reason given for bytes of the right number that are no key.
pub open spec fn invalid_bytes_reason() -> Seq<char> {
    "Invalid bytes representation."@
}

/// The sentence that describes `fault`.
pub open spec fn fault_text(fault: KeyFault) -> Seq<char> {
    match fault {
        KeyFault::NotHex => "Failed to convert the key from hex"@,
        KeyFault::InvalidBytes => "Invalid bytes representation."@,
    }
}

/// The reason given for a text that `fault` rules out.
pub open spec fn key_parse_reason(fault: KeyFault) -> Seq<char> {
    "Failed to parse hex: "@ + fault_text(fault)
}

/// What reading a key of `len` bytes from hexadecimal text owes, where
/// `valid` says which byte strings are keys: the bytes that the text spells
/// if they are a key; `NotHex` for a text that is no even number of
/// hexadecimal digits; `InvalidBytes` for hexadecimal text that spells
/// another number of bytes, or bytes that are no key.
pub open spec fn key_from_hex_outcome(
    text: Seq<char>,
    len: int,
    valid: spec_fn(Seq<u8>) -> bool,
    r: Result<Seq<u8>, KeyFault>,
) -> bool {
    match r {
        Ok(bytes) => hex_spells(text, len, bytes) && valid(bytes),
        Err(KeyFault::NotHex) => !is_hex_text(text_bytes(text)),
        Err(KeyFault::InvalidBytes) => is_hex_text(text_bytes(text)) && !(text_bytes(text).len()
            / 2 == len && valid(hex_decoding(text_bytes(text)))),
    }
}

/// Whether `text` is refused as a key of `len` bytes, and `reason` says why.
pub open spec fn key_refused(
    text: Seq<char>,
    len: int,
    valid: spec_fn(Seq<u8>) -> bool,
    reason: Seq<char>,
) -> bool {
    exists|fault: KeyFault|
        key_from_hex_outcome(text, len, valid, Err(fault)) && reason == key_parse_reason(fault)
}

/// Whether `text` is refused as a key of `len` bytes, and `reason` is the bare
/// sentence that describes the fault.
pub open spec fn key_refused_plainly(
    text: Seq<char>,
    len: int,
    valid: spec_fn(Seq<u8>) -> bool,
    reason: Seq<char>,
) -> bool {
    exists|fault: KeyFault|
        key_from_hex_outcome(text, len, valid, Err(fault)) && reason == fault_text(fault)
}

impl KeyFault {
    /// The sentence that describes this fault.
    pub fn describe(&self) -> (text: String)
        ensures
            text@ == fault_text(*self),
    {
        match self {
            KeyFault::NotHex => owned("Failed to convert the key from hex"),
            KeyFault::InvalidBytes => owned("Invalid bytes representation."),
        }
    }

    /// The reason to give for a text that this fault rules out.
    pub fn parse_failure(&self) -> (reason: String)
        ensures
            reason@ == key_parse_reason(*self),
    {
        let cause = self.describe();
        join("Failed to parse hex: ", cause.as_str())
    }

    /// The error that reports a text which this fault rules out.
    pub fn parsing_failed(&self) -> (err: KeyError)
        ensures
            err matches KeyError::ParsingFailed { reason } && reason@ == key_parse_reason(*self),
    {
        KeyError::ParsingFailed { reason: self.parse_failure() }
    }
}

/// `blsttc::PublicKey::from_hex`, with the key handed back as its bytes. By
/// the crate's source the text is decoded as hexadecimal, must give 48 bytes,
/// and these must be the compressed form of a point; the compressed form is
/// canonical, so the key's bytes are the decoded ones. A text that is no
/// hexadecimal fails with the crate's `HexConversionFailed`, anything else
/// with `InvalidBytes`.
#[verifier::external_body]
fn public_key_from_hex(hex: &str) -> (r: Result<[u8; 48], KeyFault>)
    ensures
        key_from_hex_outcome(
            hex@,
            PK_SIZE as int,
            |bytes: Seq<u8>| is_public_key(bytes),
            match r {
                Ok(key) => Ok(key@),
                Err(fault) => Err(fault),
            },
        ),
{
    match blsttc::PublicKey::from_hex(hex) {
        Ok(key) => Ok(key.to_bytes()),
        Err(blsttc::Error::HexConversionFailed(_)) => Err(KeyFault::NotHex),
        Err(_) => Err(KeyFault::InvalidBytes),
    }
}

/// `blsttc::SecretKey::from_hex`, with the key handed back as its bytes. By
/// the crate's source the text is decoded as hexadecimal, must give 32 bytes,
/// and these must be a scalar of the field in big-endian order, which is the
/// form that `to_bytes` gives back.
#[verifier::external_body]
fn secret_key_from_hex(hex: &str) -> (r: Result<[u8; 32], KeyFault>)
    ensures
        key_from_hex_outcome(
            hex@,
            SK_SIZE as int,
            |bytes: Seq<u8>| is_secret_key(bytes),
            match r {
                Ok(key) => Ok(key@),
                Err(fault) => Err(fault),
            },
        ),
{
    match blsttc::SecretKey::from_hex(hex) {
        Ok(key) => Ok(key.to_bytes()),
        Err(blsttc::Error::HexConversionFailed(_)) => Err(KeyFault::NotHex),
        Err(_) => Err(KeyFault::InvalidBytes),
    }
}

/// `blsttc::PublicKey::from_bytes`, asked only whether it accepts: whether
/// the bytes are the compressed form of a public key.
#[verifier::external_body]
fn public_key_accepts(bytes: &[u8; 48]) -> (ok: bool)
    ensures
        ok == is_public_key(bytes@),
{
    blsttc::PublicKey::from_bytes(*bytes).is_ok()
}

/// `blsttc::SecretKey::from_bytes`, asked only whether it accepts: whether
/// the bytes are a scalar of the field in big-endian order.
#[verifier::external_body]
fn secret_key_accepts(bytes: &[u8; 32]) -> (ok: bool)
    ensures
        ok == is_secret_key(bytes@),
{
    blsttc::SecretKey::from_bytes(*bytes).is_ok()
}

/// `blsttc::SecretKey::random`, with the key handed back as its bytes. Which
/// key comes is up to the random number generator; it is a secret key.
#[verifier::external_body]
fn random_secret_key() -> (key: [u8; 32])
    ensures
        is_secret_key(key@),
{
    blsttc::SecretKey::random().to_bytes()
}

/// `blsttc::SecretKey::public_key` on the secret key with the bytes `secret`:
/// the bytes of the matching public key.
#[verifier::external_body]
fn public_key_for(secret: &[u8; 32]) -> (public: [u8; 48])
    requires
        is_secret_key(secret@),
    ensures
        public@ == public_key_of(secret@),
        is_public_key(public@),
{
    blsttc::SecretKey::from_bytes(*secret).unwrap().public_key().to_bytes()
}

/// A BLS public key.
#[derive(Clone, Copy, Debug)]
pub struct PublicKey {
    bytes: [u8; 48],
}

impl View for PublicKey {
    type V = Seq<u8>;

    closed spec fn view(&self) -> Seq<u8> {
        self.bytes@
    }
}

impl PublicKey {
    /// The bytes of a public key are the compressed form of a point.
    #[verifier::type_invariant]
    pub open spec fn well_formed(&self) -> bool {
        is_public_key(self@)
    }

    /// The public key with the bytes `bytes`.
    pub(crate) fn from_array(bytes: [u8; 48]) -> (key: PublicKey)
        requires
            is_public_key(bytes@),
        ensures
            key@ == bytes@,
    {
        PublicKey { bytes }
    }

    /// The bytes of the key.
    pub(crate) fn as_array(&self) -> (bytes: [u8; 48])
        ensures
            bytes@ == self@,
            is_public_key(bytes@),
    {
        proof {
            use_type_invariant(self);
        }
        self.bytes
    }

    /// The public key with the bytes `bytes`. Another number of bytes than
    /// 48 is refused as `InvalidKey`, with the number that came; 48 bytes
    /// that are no public key are refused as `ParsingFailed`.
    pub fn from_bytes(bytes: Vec<u8>) -> (r: Result<Arc<PublicKey>, KeyError>)
        ensures
            match r {
                Ok(key) => bytes@.len() == PK_SIZE && is_public_key(bytes@) && key@ == bytes@,
                Err(KeyError::InvalidKey { reason }) => bytes@.len() != PK_SIZE && reason@
                    == public_key_length_reason(bytes@.len()),
                Err(KeyError::ParsingFailed { reason }) => bytes@.len() == PK_SIZE
                    && !is_public_key(bytes@) && reason@ == invalid_bytes_reason(),
            },
    {
        match array_of::<48>(&bytes) {
            None => Err(
                KeyError::InvalidKey {
                    reason: with_number("PublicKey must be exactly 48 bytes, got ", bytes.len()),
                },
            ),
            Some(array) => {
                if public_key_accepts(&array) {
                    Ok(Arc::new(PublicKey { bytes: array }))
                } else {
                    Err(KeyError::ParsingFailed { reason: owned("Invalid bytes representation.") })
                }
            },
        }
    }

    /// The public key that 96 hexadecimal digits spell, or the fault that
    /// rules the text out.
    pub fn parse(hex: &str) -> (r: Result<PublicKey, KeyFault>)
        ensures
            key_from_hex_outcome(
                hex@,
                PK_SIZE as int,
                |bytes: Seq<u8>| is_public_key(bytes),
                match r {
                    Ok(key) => Ok(key@),
                    Err(fault) => Err(fault),
                },
            ),
    {
        match public_key_from_hex(hex) {
            Ok(bytes) => Ok(PublicKey { bytes }),
            Err(fault) => Err(fault),
        }
    }

    /// The public key that 96 hexadecimal digits spell. Refused as
    /// `ParsingFailed` where the text is no hexadecimal, spells another
    /// number of bytes than 48, or spells bytes that are no public key.
    pub fn from_hex(hex: String) -> (r: Result<Arc<PublicKey>, KeyError>)
        ensures
            match r {
                Ok(key) => hex_spells(hex@, PK_SIZE as int, key@) && is_public_key(key@),
                Err(KeyError::ParsingFailed { reason }) => key_refused(
                    hex@,
                    PK_SIZE as int,
                    |bytes: Seq<u8>| is_public_key(bytes),
                    reason@,
                ),
                Err(_) => false,
            },
    {
        match PublicKey::parse(hex.as_str()) {
            Ok(key) => Ok(Arc::new(key)),
            Err(fault) => Err(fault.parsing_failed()),
        }
    }

    /// The key as 96 lower-case hexadecimal digits.
    pub fn to_hex(&self) -> (text: String)
        ensures
            text@ == hex_encoding(self@),
    {
        let bytes = vec_of(&self.bytes);
        encode(&bytes)
    }

    /// The 48 bytes of the key.
    pub fn to_bytes(&self) -> (bytes: Vec<u8>)
        ensures
            bytes@ == self@,
            bytes@.len() == PK_SIZE,
    {
        vec_of(&self.bytes)
    }
}

/// A BLS secret key.
pub struct SecretKey {
    bytes: [u8; 32],
}

impl View for SecretKey {
    type V = Seq<u8>;

    closed spec fn view(&self) -> Seq<u8> {
        self.bytes@
    }
}

impl SecretKey {
    /// The bytes of a secret key are a scalar of the field.
    #[verifier::type_invariant]
    pub open spec fn well_formed(&self) -> bool {
        is_secret_key(self@)
    }

    /// The secret key with the bytes `bytes`.
    pub(crate) fn from_array(bytes: [u8; 32]) -> (key: SecretKey)
        requires
            is_secret_key(bytes@),
        ensures
            key@ == bytes@,
    {
        SecretKey { bytes }
    }

    /// The bytes of the key.
    pub(crate) fn as_array(&self) -> (bytes: [u8; 32])
        ensures
            bytes@ == self@,
            is_secret_key(bytes@),
    {
        proof {
            use_type_invariant(self);
        }
        self.bytes
    }

    /// A secret key drawn at random.
    pub fn random() -> (key: Arc<SecretKey>)
        ensures
            is_secret_key(key@),
    {
        Arc::new(SecretKey { bytes: random_secret_key() })
    }

    /// The secret key with the bytes `bytes`. Another number of bytes than
    /// 32 is refused as `InvalidKey`, with the number that came; 32 bytes
    /// that are no secret key are refused as `ParsingFailed`.
    pub fn from_bytes(bytes: Vec<u8>) -> (r: Result<Arc<SecretKey>, KeyError>)
        ensures
            match r {
                Ok(key) => bytes@.len() == SK_SIZE && is_secret_key(bytes@) && key@ == bytes@,
                Err(KeyError::InvalidKey { reason }) => bytes@.len() != SK_SIZE && reason@
                    == secret_key_length_reason(bytes@.len()),
                Err(KeyError::ParsingFailed { reason }) => bytes@.len() == SK_SIZE
                    && !is_secret_key(bytes@) && reason@ == invalid_bytes_reason(),
            },
    {
        match array_of::<32>(&bytes) {
            None => Err(
                KeyError::InvalidKey {
                    reason: with_number("SecretKey must be exactly 32 bytes, got ", bytes.len()),
                },
            ),
            Some(array) => {
                if secret_key_accepts(&array) {
                    Ok(Arc::new(SecretKey { bytes: array }))
                } else {
                    Err(KeyError::ParsingFailed { reason: owned("Invalid bytes representation.") })
                }
            },
        }
    }

    /// The secret key that 64 hexadecimal digits spell, or the fault that
    /// rules the text out.
    pub fn parse(hex: &str) -> (r: Result<SecretKey, KeyFault>)
        ensures
            key_from_hex_outcome(
                hex@,
                SK_SIZE as int,
                |bytes: Seq<u8>| is_secret_key(bytes),
                match r {
                    Ok(key) => Ok(key@),
                    Err(fault) => Err(fault),
                },
            ),
    {
        match secret_key_from_hex(hex) {
            Ok(bytes) => Ok(SecretKey { bytes }),
            Err(fault) => Err(fault),
        }
    }

    /// The secret key that 64 hexadecimal digits spell. Refused as
    /// `ParsingFailed` where the text is no hexadecimal, spells another
    /// number of bytes than 32, or spells bytes that are no secret key.
    pub fn from_hex(hex: String) -> (r: Result<Arc<SecretKey>, KeyError>)
        ensures
            match r {
                Ok(key) => hex_spells(hex@, SK_SIZE as int, key@) && is_secret_key(key@),
                Err(KeyError::ParsingFailed { reason }) => key_refused(
                    hex@,
                    SK_SIZE as int,
                    |bytes: Seq<u8>| is_secret_key(bytes),
                    reason@,
                ),
                Err(_) => false,
            },
    {
        match SecretKey::parse(hex.as_str()) {
            Ok(key) => Ok(Arc::new(key)),
            Err(fault) => Err(fault.parsing_failed()),
        }
    }

    /// The key as 64 lower-case hexadecimal digits.
    pub fn to_hex(&self) -> (text: String)
        ensures
            text@ == hex_encoding(self@),
    {
        let bytes = vec_of(&self.bytes);
        encode(&bytes)
    }

    /// The 32 bytes of the key.
    pub fn to_bytes(&self) -> (bytes: Vec<u8>)
        ensures
            bytes@ == self@,
            bytes@.len() == SK_SIZE,
    {
        vec_of(&self.bytes)
    }

    /// The public key that belongs to this secret key.
    pub fn public_key(&self) -> (key: Arc<PublicKey>)
        ensures
            key@ == public_key_of(self@),
            is_public_key(key@),
    {
        proof {
            use_type_invariant(self);
        }
        Arc::new(PublicKey { bytes: public_key_for(&self.bytes) })
    }
}

} // verus!
