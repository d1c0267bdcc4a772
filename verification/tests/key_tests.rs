use ant_bindings::key_derivation::{
    DerivationIndex, DerivedPubkey, DerivedSecretKey, MainPubkey, MainSecretKey, Signature,
};
use ant_bindings::keys::{KeyError, KeyFault, PublicKey, SecretKey};
use std::sync::Arc;

const SECRET_ONE: &str = "0000000000000000000000000000000000000000000000000000000000000001";
const GENERATOR: &str = "97f1d3a73197d7942695638c4fa9ac0fc3688c4f9774b905a14e3a3f171bac586c55e83ff97a1aeffb3af00adb22c6bb";

fn parsing_reason(err: KeyError) -> String {
    match err {
        KeyError::ParsingFailed { reason } => reason,
        KeyError::InvalidKey { reason } => panic!("an invalid key was reported: {}", reason),
    }
}

fn invalid_reason(err: KeyError) -> String {
    match err {
        KeyError::InvalidKey { reason } => reason,
        KeyError::ParsingFailed { reason } => panic!("a parse failure was reported: {}", reason),
    }
}

fn secret_one() -> Arc<SecretKey> {
    match SecretKey::from_hex(SECRET_ONE.to_string()) {
        Ok(key) => key,
        Err(_) => panic!("the secret key one was refused"),
    }
}

#[test]
fn secret_key_one_has_the_generator_as_public_key() {
    let secret = secret_one();
    assert_eq!(secret.to_hex(), SECRET_ONE);
    assert_eq!(secret.to_bytes().len(), 32);
    assert_eq!(secret.to_bytes()[31], 1);
    let public = secret.public_key();
    assert_eq!(public.to_hex(), GENERATOR);
    assert_eq!(public.to_bytes().len(), 48);
    assert_eq!(public.to_bytes()[0], 0x97);
}

#[test]
fn public_key_matches_the_outside_crate() {
    let text = "4a353be3dac091a0a7e640620372f5e1e2e4401717c1e79cac6ffba8f6905604";
    let ours = match SecretKey::from_hex(text.to_string()) {
        Ok(key) => key.public_key().to_hex(),
        Err(_) => panic!("a secret key was refused"),
    };
    let theirs = blsttc::SecretKey::from_hex(text).unwrap().public_key().to_hex();
    assert_eq!(ours, theirs);
}

#[test]
fn public_key_hex_round_trip() {
    let key = PublicKey::from_hex(GENERATOR.to_string()).unwrap();
    assert_eq!(key.to_hex(), GENERATOR);
    let upper = PublicKey::from_hex(GENERATOR.to_uppercase()).unwrap();
    assert_eq!(upper.to_hex(), GENERATOR);
    let parsed = PublicKey::parse(GENERATOR).unwrap();
    assert_eq!(parsed.to_bytes(), key.to_bytes());
}

#[test]
fn public_key_from_hex_says_why_it_fails() {
    let reason = parsing_reason(PublicKey::from_hex("zz".to_string()).unwrap_err());
    assert_eq!(reason, "Failed to parse hex: Failed to convert the key from hex");
    let reason = parsing_reason(PublicKey::from_hex("abc".to_string()).unwrap_err());
    assert_eq!(reason, "Failed to parse hex: Failed to convert the key from hex");
    let reason = parsing_reason(PublicKey::from_hex("00".repeat(48)).unwrap_err());
    assert_eq!(reason, "Failed to parse hex: Invalid bytes representation.");
    let reason = parsing_reason(PublicKey::from_hex("97".repeat(47)).unwrap_err());
    assert_eq!(reason, "Failed to parse hex: Invalid bytes representation.");
    let reason = parsing_reason(PublicKey::from_hex(String::new()).unwrap_err());
    assert_eq!(reason, "Failed to parse hex: Invalid bytes representation.");
    assert!(matches!(PublicKey::parse("zz"), Err(KeyFault::NotHex)));
    assert!(matches!(PublicKey::parse("00"), Err(KeyFault::InvalidBytes)));
}

#[test]
fn secret_key_from_hex_says_why_it_fails() {
    match SecretKey::from_hex("not hex".to_string()) {
        Err(err) => assert_eq!(
            parsing_reason(err),
            "Failed to parse hex: Failed to convert the key from hex"
        ),
        Ok(_) => panic!("a text that is no hexadecimal was read as a key"),
    }
    match SecretKey::from_hex("ff".repeat(32)) {
        Err(err) => {
            assert_eq!(parsing_reason(err), "Failed to parse hex: Invalid bytes representation.")
        }
        Ok(_) => panic!("a number above the field was read as a key"),
    }
    match SecretKey::from_hex("01".repeat(31)) {
        Err(err) => {
            assert_eq!(parsing_reason(err), "Failed to parse hex: Invalid bytes representation.")
        }
        Ok(_) => panic!("31 bytes were read as a key"),
    }
    assert!(matches!(SecretKey::parse("0"), Err(KeyFault::NotHex)));
}

#[test]
fn key_fault_texts() {
    assert_eq!(KeyFault::NotHex.describe(), "Failed to convert the key from hex");
    assert_eq!(KeyFault::InvalidBytes.describe(), "Invalid bytes representation.");
    assert_eq!(
        KeyFault::InvalidBytes.parse_failure(),
        "Failed to parse hex: Invalid bytes representation."
    );
}

#[test]
fn random_secret_keys_are_keys_and_differ() {
    let a = SecretKey::random();
    let b = SecretKey::random();
    assert!(a.to_hex() != b.to_hex());
    match SecretKey::from_hex(a.to_hex()) {
        Ok(again) => assert_eq!(again.public_key().to_hex(), a.public_key().to_hex()),
        Err(_) => panic!("a random key was refused"),
    }
}

#[test]
fn derivation_index_takes_32_bytes() {
    let index = DerivationIndex::from_bytes((0u8..32).collect()).unwrap();
    assert_eq!(index.to_bytes(), (0u8..32).collect::<Vec<u8>>());
    let reason = invalid_reason(DerivationIndex::from_bytes(vec![0; 31]).unwrap_err());
    assert_eq!(reason, "DerivationIndex must be exactly 32 bytes, got 31");
    let reason = invalid_reason(DerivationIndex::from_bytes(vec![0; 33]).unwrap_err());
    assert_eq!(reason, "DerivationIndex must be exactly 32 bytes, got 33");
    let a = DerivationIndex::random();
    let b = DerivationIndex::random();
    assert_eq!(a.to_bytes().len(), 32);
    assert!(a.to_bytes() != b.to_bytes());
}

#[test]
fn signature_round_trip_and_parity() {
    let main = MainSecretKey::new(secret_one());
    let signature = main.sign(b"a message".to_vec());
    let bytes = signature.to_bytes();
    assert_eq!(bytes.len(), 96);
    let again = Signature::from_bytes(bytes.clone()).unwrap();
    assert_eq!(again.to_bytes(), bytes);
    assert_eq!(again.to_hex(), hex::encode(&bytes));
    let theirs = blsttc::SecretKey::from_hex(SECRET_ONE).unwrap().sign(b"a message");
    assert_eq!(bytes, theirs.to_bytes().to_vec());
    assert_eq!(signature.parity(), theirs.parity());
    let other = main.sign(b"another message".to_vec());
    let their_other = blsttc::SecretKey::from_hex(SECRET_ONE).unwrap().sign(b"another message");
    assert_eq!(other.parity(), their_other.parity());
}

#[test]
fn signature_from_bytes_says_why_it_fails() {
    let reason = invalid_reason(Signature::from_bytes(vec![0; 95]).unwrap_err());
    assert_eq!(reason, "Signature must be exactly 96 bytes, got 95");
    let reason = invalid_reason(Signature::from_bytes(Vec::new()).unwrap_err());
    assert_eq!(reason, "Signature must be exactly 96 bytes, got 0");
    let reason = parsing_reason(Signature::from_bytes(vec![0; 96]).unwrap_err());
    assert_eq!(reason, "Invalid signature: Invalid bytes representation.");
}

#[test]
fn signatures_verify_under_the_matching_key_only() {
    let main = MainSecretKey::new(secret_one());
    let public = main.public_key();
    assert_eq!(public.to_hex(), GENERATOR);
    assert_eq!(main.to_bytes(), secret_one().to_bytes());
    let signature = main.sign(b"hello".to_vec());
    assert!(public.verify(signature.clone(), b"hello".to_vec()));
    assert!(!public.verify(signature.clone(), b"hullo".to_vec()));
    let stranger = MainSecretKey::random().public_key();
    assert!(!stranger.verify(signature, b"hello".to_vec()));
}

#[test]
fn derived_keys_agree_on_both_sides() {
    let main = MainSecretKey::new(secret_one());
    let index = DerivationIndex::from_bytes(vec![7; 32]).unwrap();
    let child_secret = main.derive_key(index.clone());
    let child_public = main.public_key().derive_key(index.clone());
    assert_eq!(child_secret.public_key().to_hex(), child_public.to_hex());
    assert!(child_public.to_hex() != main.public_key().to_hex());
    let signature = child_secret.sign(b"derived".to_vec());
    assert!(child_public.verify(signature.clone(), b"derived".to_vec()));
    assert!(!main.public_key().verify(signature, b"derived".to_vec()));

    let theirs = blsttc::SecretKey::from_hex(SECRET_ONE).unwrap().derive_child(&[7u8; 32]);
    assert_eq!(child_secret.public_key().to_hex(), theirs.public_key().to_hex());

    let other = main.derive_key(DerivationIndex::from_bytes(vec![8; 32]).unwrap());
    assert!(other.public_key().to_hex() != child_public.to_hex());
}

#[test]
fn random_derived_keys_differ() {
    let main = MainSecretKey::random();
    let a = main.random_derived_key();
    let b = main.random_derived_key();
    assert!(a.public_key().to_hex() != b.public_key().to_hex());
}

#[test]
fn main_and_derived_public_keys_from_hex() {
    let main = MainPubkey::from_hex(GENERATOR.to_string()).unwrap();
    assert_eq!(main.to_hex(), GENERATOR);
    assert_eq!(main.to_bytes(), hex::decode(GENERATOR).unwrap());
    let derived = DerivedPubkey::from_hex(GENERATOR.to_string()).unwrap();
    assert_eq!(derived.to_hex(), GENERATOR);
    assert_eq!(derived.to_bytes(), hex::decode(GENERATOR).unwrap());
    let reason = parsing_reason(MainPubkey::from_hex("q".to_string()).unwrap_err());
    assert_eq!(reason, "Failed to parse hex: Failed to convert the key from hex");
    let reason = parsing_reason(DerivedPubkey::from_hex("11".repeat(48)).unwrap_err());
    assert_eq!(reason, "Failed to parse hex: Invalid bytes representation.");
    let key = PublicKey::from_hex(GENERATOR.to_string()).unwrap();
    assert_eq!(MainPubkey::new(key.clone()).to_hex(), GENERATOR);
    assert_eq!(DerivedPubkey::new(key).to_hex(), GENERATOR);
}

#[test]
fn derived_secret_key_from_a_secret_key() {
    let derived = DerivedSecretKey::new(secret_one());
    assert_eq!(derived.public_key().to_hex(), GENERATOR);
    let signature = derived.sign(b"m".to_vec());
    assert!(derived.public_key().verify(signature, b"m".to_vec()));
}

#[test]
fn keys_from_bytes() {
    let generator = hex::decode(GENERATOR).unwrap();
    assert_eq!(PublicKey::from_bytes(generator.clone()).unwrap().to_hex(), GENERATOR);
    let reason = invalid_reason(PublicKey::from_bytes(vec![0; 47]).unwrap_err());
    assert_eq!(reason, "PublicKey must be exactly 48 bytes, got 47");
    let reason = parsing_reason(PublicKey::from_bytes(vec![0; 48]).unwrap_err());
    assert_eq!(reason, "Invalid bytes representation.");

    let one = hex::decode(SECRET_ONE).unwrap();
    match SecretKey::from_bytes(one) {
        Ok(key) => assert_eq!(key.public_key().to_hex(), GENERATOR),
        Err(_) => panic!("the secret key one was refused"),
    }
    match SecretKey::from_bytes(vec![0xff; 32]) {
        Err(err) => assert_eq!(parsing_reason(err), "Invalid bytes representation."),
        Ok(_) => panic!("a number above the field was read as a key"),
    }
    match SecretKey::from_bytes(vec![1; 33]) {
        Err(err) => assert_eq!(invalid_reason(err), "SecretKey must be exactly 32 bytes, got 33"),
        Ok(_) => panic!("33 bytes were read as a key"),
    }
}
