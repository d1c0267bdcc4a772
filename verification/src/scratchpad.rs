//! Scratchpads: encrypted, mutable data with a version, each kept at the
//! address of its owner's key.

use crate::buffer;
use crate::hexcode::{hex_encoding, hex_spells};
use crate::key_derivation::Signature;
use crate::keys::{is_public_key, is_secret_key, key_refused, PublicKey, SecretKey, PK_SIZE};
use crate::text::owned;
use std::sync::Arc;
use vstd::prelude::*;

verus! {

/// Whether `bytes` is the serialised form of a ciphertext.
pub uninterp spec fn is_ciphertext(bytes: Seq<u8>) -> bool;

/// What the secret key `secret` makes of the ciphertext `encrypted`: the
/// plain data, or `None` where the ciphertext does not stand its own check.
pub uninterp spec fn decryption_of(secret: Seq<u8>, encrypted: Seq<u8>) -> Option<Seq<u8>>;

/// `blsttc::Ciphertext::from_bytes`, asked only whether it accepts: whether
/// the bytes are the serialised form of a ciphertext.
#[verifier::external_body]
fn ciphertext_accepts(bytes: &Vec<u8>) -> (ok: bool)
    ensures
        ok == is_ciphertext(bytes@),
{
    blsttc::Ciphertext::from_bytes(bytes).is_ok()
}

/// `blsttc::SecretKey::decrypt` with the secret key of the bytes `secret` on
/// the ciphertext of the bytes `encrypted`. What comes depends on the key
/// and the ciphertext alone.
#[verifier::external_body]
fn decrypt_with(secret: &[u8; 32], encrypted: &Vec<u8>) -> (plain: Option<Vec<u8>>)
    requires
        is_secret_key(secret@),
        is_ciphertext(encrypted@),
    ensures
        decryption_of(secret@, encrypted@) == match plain {
            Some(bytes) => Some(bytes@),
            None => None,
        },
{
    let key = blsttc::SecretKey::from_bytes(*secret).unwrap();
    key.decrypt(&blsttc::Ciphertext::from_bytes(encrypted).unwrap())
}

/// Why a scratchpad operation was refused.
#[derive(Debug)]
pub enum ScratchpadError {
    /// The parts do not make a scratchpad.
    InvalidScratchpad { reason: String },
    /// The text is no encoding of the value asked for.
    ParsingFailed { reason: String },
    /// The data could not be decrypted with the key.
    DecryptionFailed { reason: String },
}

/// The address of a scratchpad: the public key of its owner.
#[derive(Clone, Copy, Debug)]
pub struct ScratchpadAddress {
    owner: PublicKey,
}

impl View for ScratchpadAddress {
    type V = Seq<u8>;

    closed spec fn view(&self) -> Seq<u8> {
        self.owner@
    }
}

impl ScratchpadAddress {
    /// The address that belongs to the owner with the key `public_key`.
    pub fn new(public_key: Arc<PublicKey>) -> (address: Arc<ScratchpadAddress>)
        ensures
            address@ == public_key@,
    {
        Arc::new(ScratchpadAddress { owner: *public_key })
    }

    /// The address of the owner `owner`.
    pub fn of_owner(owner: PublicKey) -> (address: ScratchpadAddress)
        ensures
            address@ == owner@,
    {
        ScratchpadAddress { owner }
    }

    /// The address that 96 hexadecimal digits spell. Refused as
    /// `ParsingFailed` where the text is no hexadecimal, spells another
    /// number of bytes than 48, or spells bytes that are no public key.
    pub fn from_hex(hex: String) -> (r: Result<Arc<ScratchpadAddress>, ScratchpadError>)
        ensures
            match r {
                Ok(address) => hex_spells(hex@, PK_SIZE as int, address@) && is_public_key(
                    address@,
                ),
                Err(ScratchpadError::ParsingFailed { reason }) => key_refused(
                    hex@,
                    PK_SIZE as int,
                    |bytes: Seq<u8>| is_public_key(bytes),
                    reason@,
                ),
                Err(_) => false,
            },
    {
        match PublicKey::parse(hex.as_str()) {
            Ok(owner) => Ok(Arc::new(ScratchpadAddress { owner })),
            Err(fault) => Err(ScratchpadError::ParsingFailed { reason: fault.parse_failure() }),
        }
    }

    /// The public key of the owner.
    pub fn owner(&self) -> (key: Arc<PublicKey>)
        ensures
            key@ == self@,
    {
        Arc::new(self.owner)
    }

    /// The address as 96 lower-case hexadecimal digits.
    pub fn to_hex(&self) -> (text: String)
        ensures
            text@ == hex_encoding(self@),
    {
        self.owner.to_hex()
    }
}

/// The parts of a scratchpad, as the contracts speak of them.
pub struct ScratchpadView {
    /// The public key of the owner.
    pub owner: Seq<u8>,
    /// What kind of data the scratchpad holds; the meaning is up to the
    /// application.
    pub data_encoding: u64,
    /// The data, encrypted for the owner.
    pub encrypted_data: Seq<u8>,
    /// The version of the scratchpad; a higher one is more recent.
    pub counter: u64,
    /// The owner's signature over the other parts.
    pub signature: Seq<u8>,
}

/// A scratchpad as the network keeps it.
pub struct Scratchpad {
    address: ScratchpadAddress,
    data_encoding: u64,
    encrypted_data: bytes::Bytes,
    counter: u64,
    signature: Signature,
}

impl View for Scratchpad {
    type V = ScratchpadView;

    closed spec fn view(&self) -> ScratchpadView {
        ScratchpadView {
            owner: self.address@,
            data_encoding: self.data_encoding,
            encrypted_data: buffer::contents(self.encrypted_data),
            counter: self.counter,
            signature: self.signature@,
        }
    }
}

/// The reason given when the data is no ciphertext.
pub open spec fn no_ciphertext_reason() -> Seq<char> {
    "Failed to decrypt: the data is no ciphertext"@
}

/// The reason given when the ciphertext does not stand its own check.
pub open spec fn decrypt_reason() -> Seq<char> {
    "Failed to decrypt: the ciphertext is not valid"@
}

impl Scratchpad {
    /// The scratchpad with the given parts. Whether the signature is the
    /// owner's is not looked into.
    pub fn from_parts(
        address: Arc<ScratchpadAddress>,
        data_encoding: u64,
        encrypted_data: Vec<u8>,
        counter: u64,
        signature: Arc<Signature>,
    ) -> (scratchpad: Arc<Scratchpad>)
        ensures
            scratchpad@ == (ScratchpadView {
                owner: address@,
                data_encoding,
                encrypted_data: encrypted_data@,
                counter,
                signature: signature@,
            }),
    {
        Arc::new(
            Scratchpad {
                address: *address,
                data_encoding,
                encrypted_data: buffer::from_vec(encrypted_data),
                counter,
                signature: *signature,
            },
        )
    }

    /// The address at which the scratchpad is kept: that of its owner.
    pub fn address(&self) -> (address: Arc<ScratchpadAddress>)
        ensures
            address@ == self@.owner,
    {
        Arc::new(self.address)
    }

    /// What kind of data the scratchpad holds.
    pub fn data_encoding(&self) -> (encoding: u64)
        ensures
            encoding == self@.data_encoding,
    {
        self.data_encoding
    }

    /// The version of the scratchpad.
    pub fn counter(&self) -> (counter: u64)
        ensures
            counter == self@.counter,
    {
        self.counter
    }

    /// The data as plain bytes, decrypted with the secret key `sk`. Refused
    /// as `DecryptionFailed` where the data is no ciphertext, and where the
    /// ciphertext does not stand its own check.
    pub fn decrypt_data(&self, sk: Arc<SecretKey>) -> (r: Result<Vec<u8>, ScratchpadError>)
        ensures
            match r {
                Ok(plain) => is_ciphertext(self@.encrypted_data) && decryption_of(
                    sk@,
                    self@.encrypted_data,
                ) == Some(plain@),
                Err(ScratchpadError::DecryptionFailed { reason }) => if is_ciphertext(
                    self@.encrypted_data,
                ) {
                    decryption_of(sk@, self@.encrypted_data) is None && reason@
                        == decrypt_reason()
                } else {
                    reason@ == no_ciphertext_reason()
                },
                Err(_) => false,
            },
    {
        let secret = sk.as_array();
        let encrypted = buffer::to_vec(&self.encrypted_data);
        if !ciphertext_accepts(&encrypted) {
            return Err(
                ScratchpadError::DecryptionFailed {
                    reason: owned("Failed to decrypt: the data is no ciphertext"),
                },
            );
        }
        match decrypt_with(&secret, &encrypted) {
            Some(plain) => Ok(plain),
            None => Err(
                ScratchpadError::DecryptionFailed {
                    reason: owned("Failed to decrypt: the ciphertext is not valid"),
                },
            ),
        }
    }

    /// The public key of the owner.
    pub fn owner(&self) -> (key: Arc<PublicKey>)
        ensures
            key@ == self@.owner,
    {
        self.address.owner()
    }

    /// The owner's signature.
    pub fn signature(&self) -> (signature: Arc<Signature>)
        ensures
            signature@ == self@.signature,
    {
        Arc::new(self.signature)
    }

    /// A copy of the encrypted data.
    pub fn encrypted_data(&self) -> (bytes: Vec<u8>)
        ensures
            bytes@ == self@.encrypted_data,
    {
        buffer::to_vec(&self.encrypted_data)
    }
}

} // verus!
