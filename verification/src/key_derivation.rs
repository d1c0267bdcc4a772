//! Keys in a hierarchy: a main key pair, and the key pairs derived from it by
//! an index. A derived public key can be had from the main public key alone.

use crate::fixed::{array_of, vec_of};
use crate::hexcode::{encode, hex_encoding, hex_spells};
use crate::keys::{
    is_public_key, is_secret_key, key_refused, public_key_of, KeyError, PublicKey, SecretKey,
    PK_SIZE, SK_SIZE,
};
use crate::text::{decimal_text, owned, with_number};
use std::sync::Arc;
use vstd::prelude::*;

verus! {

/// The number of bytes of a derivation index.
pub const INDEX_SIZE: usize = 32;

/// The number of bytes of a signature.
pub const SIG_SIZE: usize = 96;

/// Whether `bytes` is the compressed form of a signature.
pub uninterp spec fn is_signature(bytes: Seq<u8>) -> bool;

/// Whether the signature `signature` has an odd number of ones in its
/// uncompressed form.
pub uninterp spec fn parity_of(signature: Seq<u8>) -> bool;

/// The signature that the secret key `secret` gives to the message `msg`.
pub uninterp spec fn signature_of(secret: Seq<u8>, msg: Seq<u8>) -> Seq<u8>;

/// Whether `signature` is the public key `public`'s signature of `msg`.
pub uninterp spec fn verifies(public: Seq<u8>, signature: Seq<u8>, msg: Seq<u8>) -> bool;

/// The secret key derived from `secret` by `index`.
pub uninterp spec fn child_secret(secret: Seq<u8>, index: Seq<u8>) -> Seq<u8>;

/// The public key derived from `public` by `index`.
pub uninterp spec fn child_public(public: Seq<u8>, index: Seq<u8>) -> Seq<u8>;

/// `blsttc::Signature::from_bytes`, asked only whether it accepts: whether
/// the bytes are the compressed form of a signature.
#[verifier::external_body]
fn signature_accepts(bytes: &[u8; 96]) -> (ok: bool)
    ensures
        ok == is_signature(bytes@),
{
    blsttc::Signature::from_bytes(*bytes).is_ok()
}

/// `blsttc::Signature::parity` on the signature with the bytes `signature`.
#[verifier::external_body]
fn signature_parity(signature: &[u8; 96]) -> (odd: bool)
    requires
        is_signature(signature@),
    ensures
        odd == parity_of(signature@),
{
    blsttc::Signature::from_bytes(*signature).unwrap().parity()
}

/// `blsttc::SecretKey::sign` with the secret key of the bytes `secret`: the
/// bytes of the signature, which depends on the key and the message alone.
#[verifier::external_body]
fn sign_with(secret: &[u8; 32], msg: &Vec<u8>) -> (signature: [u8; 96])
    requires
        is_secret_key(secret@),
    ensures
        signature@ == signature_of(secret@, msg@),
        is_signature(signature@),
{
    blsttc::SecretKey::from_bytes(*secret).unwrap().sign(msg).to_bytes()
}

/// `blsttc::PublicKey::verify` with the public key of the bytes `public` and
/// the signature of the bytes `signature`.
#[verifier::external_body]
fn verify_with(public: &[u8; 48], signature: &[u8; 96], msg: &Vec<u8>) -> (ok: bool)
    requires
        is_public_key(public@),
        is_signature(signature@),
    ensures
        ok == verifies(public@, signature@, msg@),
{
    let key = blsttc::PublicKey::from_bytes(*public).unwrap();
    key.verify(&blsttc::Signature::from_bytes(*signature).unwrap(), msg)
}

/// `blsttc::SecretKey::derive_child` on the secret key of the bytes `secret`:
/// the bytes of the child key, which depends on the key and the index alone.
#[verifier::external_body]
fn derive_secret(secret: &[u8; 32], index: &[u8; 32]) -> (child: [u8; 32])
    requires
        is_secret_key(secret@),
    ensures
        child@ == child_secret(secret@, index@),
        is_secret_key(child@),
{
    blsttc::SecretKey::from_bytes(*secret).unwrap().derive_child(index).to_bytes()
}

/// `blsttc::PublicKey::derive_child` on the public key of the bytes `public`:
/// the bytes of the child key, which depends on the key and the index alone.
#[verifier::external_body]
fn derive_public(public: &[u8; 48], index: &[u8; 32]) -> (child: [u8; 48])
    requires
        is_public_key(public@),
    ensures
        child@ == child_public(public@, index@),
        is_public_key(child@),
{
    blsttc::PublicKey::from_bytes(*public).unwrap().derive_child(index).to_bytes()
}

/// `rand::random` as `blsttc` hands it on, for 32 bytes. Which bytes come is
/// up to the random number generator.
#[verifier::external_body]
fn random_index_bytes() -> (bytes: [u8; 32]) {
    blsttc::rand::random::<[u8; 32]>()
}

/// The index by which a child key is derived from a main key.
#[derive(Clone, Copy, Debug)]
pub struct DerivationIndex {
    bytes: [u8; 32],
}

impl View for DerivationIndex {
    type V = Seq<u8>;

    closed spec fn view(&self) -> Seq<u8> {
        self.bytes@
    }
}

/// The reason given for an index of `n` bytes where 32 are needed.
pub open spec fn index_length_reason(n: nat) -> Seq<char> {
    "DerivationIndex must be exactly 32 bytes, got "@ + decimal_text(n)
}

/// The reason given for a signature of `n` bytes where 96 are needed.
pub open spec fn signature_length_reason(n: nat) -> Seq<char> {
    "Signature must be exactly 96 bytes, got "@ + decimal_text(n)
}

/// The reason given for 96 bytes that are no signature.
pub open spec fn invalid_signature_reason() -> Seq<char> {
    "Invalid signature: Invalid bytes representation."@
}

impl DerivationIndex {
    /// An index drawn at random.
    pub fn random() -> (index: Arc<DerivationIndex>)
        ensures
            index@.len() == INDEX_SIZE,
    {
        Arc::new(DerivationIndex { bytes: random_index_bytes() })
    }

    /// The index made of 32 bytes; any other number of bytes is refused as
    /// `InvalidKey`, with the number that came.
    pub fn from_bytes(bytes: Vec<u8>) -> (r: Result<Arc<DerivationIndex>, KeyError>)
        ensures
            match r {
                Ok(index) => bytes@.len() == INDEX_SIZE && index@ == bytes@,
                Err(KeyError::InvalidKey { reason }) => bytes@.len() != INDEX_SIZE && reason@
                    == index_length_reason(bytes@.len()),
                Err(_) => false,
            },
    {
        match array_of::<32>(&bytes) {
            Some(array) => Ok(Arc::new(DerivationIndex { bytes: array })),
            None => Err(
                KeyError::InvalidKey {
                    reason: with_number(
                        "DerivationIndex must be exactly 32 bytes, got ",
                        bytes.len(),
                    ),
                },
            ),
        }
    }

    /// The 32 bytes of the index.
    pub fn to_bytes(&self) -> (bytes: Vec<u8>)
        ensures
            bytes@ == self@,
            bytes@.len() == INDEX_SIZE,
    {
        vec_of(&self.bytes)
    }
}

/// A BLS signature.
#[derive(Clone, Copy, Debug)]
pub struct Signature {
    bytes: [u8; 96],
}

impl View for Signature {
    type V = Seq<u8>;

    closed spec fn view(&self) -> Seq<u8> {
        self.bytes@
    }
}

impl Signature {
    /// The bytes of a signature are the compressed form of a point.
    #[verifier::type_invariant]
    pub open spec fn well_formed(&self) -> bool {
        is_signature(self@)
    }

    /// The signature made of 96 bytes. Another number of bytes is refused as
    /// `InvalidKey`, with the number that came; 96 bytes that are no
    /// signature are refused as `ParsingFailed`.
    pub fn from_bytes(bytes: Vec<u8>) -> (r: Result<Arc<Signature>, KeyError>)
        ensures
            match r {
                Ok(signature) => bytes@.len() == SIG_SIZE && is_signature(bytes@) && signature@
                    == bytes@,
                Err(KeyError::InvalidKey { reason }) => bytes@.len() != SIG_SIZE && reason@
                    == signature_length_reason(bytes@.len()),
                Err(KeyError::ParsingFailed { reason }) => bytes@.len() == SIG_SIZE
                    && !is_signature(bytes@) && reason@ == invalid_signature_reason(),
            },
    {
        match array_of::<96>(&bytes) {
            None => Err(
                KeyError::InvalidKey {
                    reason: with_number("Signature must be exactly 96 bytes, got ", bytes.len()),
                },
            ),
            Some(array) => {
                if signature_accepts(&array) {
                    Ok(Arc::new(Signature { bytes: array }))
                } else {
                    Err(
                        KeyError::ParsingFailed {
                            reason: owned(
                                "Invalid signature: Invalid bytes representation.",
                            ),
                        },
                    )
                }
            },
        }
    }

    /// The 96 bytes of the signature.
    pub fn to_bytes(&self) -> (bytes: Vec<u8>)
        ensures
            bytes@ == self@,
            bytes@.len() == SIG_SIZE,
    {
        vec_of(&self.bytes)
    }

    /// Whether the signature has an odd number of ones.
    pub fn parity(&self) -> (odd: bool)
        ensures
            odd == parity_of(self@),
    {
        proof {
            use_type_invariant(self);
        }
        signature_parity(&self.bytes)
    }

    /// The signature as 192 lower-case hexadecimal digits.
    pub fn to_hex(&self) -> (text: String)
        ensures
            text@ == hex_encoding(self@),
    {
        let bytes = vec_of(&self.bytes);
        encode(&bytes)
    }
}

/// The signature that the secret key gives to `msg`.
fn sign_message(key: &SecretKey, msg: &Vec<u8>) -> (signature: Signature)
    ensures
        signature@ == signature_of(key@, msg@),
{
    let secret = key.as_array();
    Signature { bytes: sign_with(&secret, msg) }
}

/// Whether `signature` is the public key's signature of `msg`.
fn check_signature(key: &PublicKey, signature: &Signature, msg: &Vec<u8>) -> (ok: bool)
    ensures
        ok == verifies(key@, signature@, msg@),
{
    proof {
        use_type_invariant(signature);
    }
    let public = key.as_array();
    verify_with(&public, &signature.bytes, msg)
}

/// The secret key at the head of a hierarchy.
pub struct MainSecretKey {
    key: SecretKey,
}

impl View for MainSecretKey {
    type V = Seq<u8>;

    closed spec fn view(&self) -> Seq<u8> {
        self.key@
    }
}

impl MainSecretKey {
    /// The main secret key made of `secret_key`.
    pub fn new(secret_key: Arc<SecretKey>) -> (key: Arc<MainSecretKey>)
        ensures
            key@ == secret_key@,
    {
        let bytes = secret_key.as_array();
        Arc::new(MainSecretKey { key: SecretKey::from_array(bytes) })
    }

    /// A main secret key drawn at random.
    pub fn random() -> (key: Arc<MainSecretKey>)
        ensures
            is_secret_key(key@),
    {
        MainSecretKey::new(SecretKey::random())
    }

    /// The main public key that belongs to this key.
    pub fn public_key(&self) -> (key: Arc<MainPubkey>)
        ensures
            key@ == public_key_of(self@),
    {
        let public = self.key.public_key();
        Arc::new(MainPubkey { key: *public })
    }

    /// This key's signature of `msg`.
    pub fn sign(&self, msg: Vec<u8>) -> (signature: Arc<Signature>)
        ensures
            signature@ == signature_of(self@, msg@),
    {
        Arc::new(sign_message(&self.key, &msg))
    }

    /// The secret key derived from this key by `index`.
    pub fn derive_key(&self, index: Arc<DerivationIndex>) -> (child: Arc<DerivedSecretKey>)
        ensures
            child@ == child_secret(self@, index@),
    {
        let secret = self.key.as_array();
        let bytes = derive_secret(&secret, &index.bytes);
        Arc::new(DerivedSecretKey { key: SecretKey::from_array(bytes) })
    }

    /// The secret key derived from this key by an index drawn at random.
    pub fn random_derived_key(&self) -> (child: Arc<DerivedSecretKey>)
        ensures
            exists|index: Seq<u8>|
                index.len() == INDEX_SIZE && child@ == #[trigger] child_secret(self@, index),
    {
        let index = DerivationIndex::random();
        self.derive_key(index)
    }

    /// The 32 bytes of the key.
    pub fn to_bytes(&self) -> (bytes: Vec<u8>)
        ensures
            bytes@ == self@,
            bytes@.len() == SK_SIZE,
    {
        self.key.to_bytes()
    }
}

/// The public key at the head of a hierarchy.
#[derive(Clone, Copy, Debug)]
pub struct MainPubkey {
    key: PublicKey,
}

impl View for MainPubkey {
    type V = Seq<u8>;

    closed spec fn view(&self) -> Seq<u8> {
        self.key@
    }
}

impl MainPubkey {
    /// The main public key made of `public_key`.
    pub fn new(public_key: Arc<PublicKey>) -> (key: Arc<MainPubkey>)
        ensures
            key@ == public_key@,
    {
        Arc::new(MainPubkey { key: *public_key })
    }

    /// The main public key that 96 hexadecimal digits spell. Refused as
    /// `ParsingFailed` where the text is no hexadecimal, spells another
    /// number of bytes than 48, or spells bytes that are no public key.
    pub fn from_hex(hex: String) -> (r: Result<Arc<MainPubkey>, KeyError>)
        ensures
            match r {
                Ok(key) => hex_spells(hex@, PK_SIZE as int, key@) && is_public_key(key@),
                Err(KeyError::ParsingFailed { reason }) => key_refused(
                    hex@,
                    PK_SIZE as int,
                    |bytes: Seq<u8>| is_public_key(bytes),
                    reason@,
                ),
                Err(_) => false,
            },
    {
        match PublicKey::parse(hex.as_str()) {
            Ok(key) => Ok(Arc::new(MainPubkey { key })),
            Err(fault) => Err(fault.parsing_failed()),
        }
    }

    /// Whether `signature` is this key's signature of `msg`.
    pub fn verify(&self, signature: Arc<Signature>, msg: Vec<u8>) -> (ok: bool)
        ensures
            ok == verifies(self@, signature@, msg@),
    {
        check_signature(&self.key, &signature, &msg)
    }

    /// The public key derived from this key by `index`.
    pub fn derive_key(&self, index: Arc<DerivationIndex>) -> (child: Arc<DerivedPubkey>)
        ensures
            child@ == child_public(self@, index@),
    {
        let public = self.key.as_array();
        let bytes = derive_public(&public, &index.bytes);
        Arc::new(DerivedPubkey { key: PublicKey::from_array(bytes) })
    }

    /// The 48 bytes of the key.
    pub fn to_bytes(&self) -> (bytes: Vec<u8>)
        ensures
            bytes@ == self@,
            bytes@.len() == PK_SIZE,
    {
        self.key.to_bytes()
    }

    /// The key as 96 lower-case hexadecimal digits.
    pub fn to_hex(&self) -> (text: String)
        ensures
            text@ == hex_encoding(self@),
    {
        self.key.to_hex()
    }
}

/// A secret key derived from a main secret key.
pub struct DerivedSecretKey {
    key: SecretKey,
}

impl View for DerivedSecretKey {
    type V = Seq<u8>;

    closed spec fn view(&self) -> Seq<u8> {
        self.key@
    }
}

impl DerivedSecretKey {
    /// The derived secret key made of `secret_key`.
    pub fn new(secret_key: Arc<SecretKey>) -> (key: Arc<DerivedSecretKey>)
        ensures
            key@ == secret_key@,
    {
        let bytes = secret_key.as_array();
        Arc::new(DerivedSecretKey { key: SecretKey::from_array(bytes) })
    }

    /// The derived public key that belongs to this key.
    pub fn public_key(&self) -> (key: Arc<DerivedPubkey>)
        ensures
            key@ == public_key_of(self@),
    {
        let public = self.key.public_key();
        Arc::new(DerivedPubkey { key: *public })
    }

    /// This key's signature of `msg`.
    pub fn sign(&self, msg: Vec<u8>) -> (signature: Arc<Signature>)
        ensures
            signature@ == signature_of(self@, msg@),
    {
        Arc::new(sign_message(&self.key, &msg))
    }
}

/// A public key derived from a main public key.
#[derive(Clone, Copy, Debug)]
pub struct DerivedPubkey {
    key: PublicKey,
}

impl View for DerivedPubkey {
    type V = Seq<u8>;

    closed spec fn view(&self) -> Seq<u8> {
        self.key@
    }
}

impl DerivedPubkey {
    /// The derived public key made of `public_key`.
    pub fn new(public_key: Arc<PublicKey>) -> (key: Arc<DerivedPubkey>)
        ensures
            key@ == public_key@,
    {
        Arc::new(DerivedPubkey { key: *public_key })
    }

    /// The derived public key that 96 hexadecimal digits spell. Refused as
    /// `ParsingFailed` where the text is no hexadecimal, spells another
    /// number of bytes than 48, or spells bytes that are no public key.
    pub fn from_hex(hex: String) -> (r: Result<Arc<DerivedPubkey>, KeyError>)
        ensures
            match r {
                Ok(key) => hex_spells(hex@, PK_SIZE as int, key@) && is_public_key(key@),
                Err(KeyError::ParsingFailed { reason }) => key_refused(
                    hex@,
                    PK_SIZE as int,
                    |bytes: Seq<u8>| is_public_key(bytes),
                    reason@,
                ),
                Err(_) => false,
            },
    {
        match PublicKey::parse(hex.as_str()) {
            Ok(key) => Ok(Arc::new(DerivedPubkey { key })),
            Err(fault) => Err(fault.parsing_failed()),
        }
    }

    /// Whether `signature` is this key's signature of `msg`.
    pub fn verify(&self, signature: Arc<Signature>, msg: Vec<u8>) -> (ok: bool)
        ensures
            ok == verifies(self@, signature@, msg@),
    {
        check_signature(&self.key, &signature, &msg)
    }

    /// The 48 bytes of the key.
    pub fn to_bytes(&self) -> (bytes: Vec<u8>)
        ensures
            bytes@ == self@,
            bytes@.len() == PK_SIZE,
    {
        self.key.to_bytes()
    }

    /// The key as 96 lower-case hexadecimal digits.
    pub fn to_hex(&self) -> (text: String)
        ensures
            text@ == hex_encoding(self@),
    {
        self.key.to_hex()
    }
}

} // verus!
