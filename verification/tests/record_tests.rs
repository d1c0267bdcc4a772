use ant_bindings::client::{public_data_address, register_value, ClientError};
use ant_bindings::data::ChunkAddress;
use ant_bindings::graph_entry::{GraphDescendant, GraphEntry, GraphEntryAddress, GraphEntryError};
use ant_bindings::key_derivation::{MainSecretKey, Signature};
use ant_bindings::keys::{PublicKey, SecretKey};
use ant_bindings::peers::{
    address_is_global, ip4_is_loopback, ip4_is_private, plan_peers, Component,
};
use ant_bindings::pointer::{NetworkPointer, PointerAddress, PointerError, PointerTarget, Target};
use ant_bindings::registers::{register_value_from_bytes, RegisterAddress, RegisterError};
use ant_bindings::scratchpad::{Scratchpad, ScratchpadAddress, ScratchpadError};
use ant_bindings::streaming::{Collector, DataStream, Progress, StreamEvent};
use ant_bindings::vault::{bytes_equal, UserData, VaultError, VaultSecretKey};
use ant_bindings::archive::{ArchiveAddress, PrivateArchiveDataMap};
use std::sync::Arc;

const SECRET_ONE: &str = "0000000000000000000000000000000000000000000000000000000000000001";
const GENERATOR: &str = "97f1d3a73197d7942695638c4fa9ac0fc3688c4f9774b905a14e3a3f171bac586c55e83ff97a1aeffb3af00adb22c6bb";

fn owner() -> Arc<PublicKey> {
    PublicKey::from_hex(GENERATOR.to_string()).unwrap()
}

fn secret() -> Arc<SecretKey> {
    match SecretKey::from_hex(SECRET_ONE.to_string()) {
        Ok(key) => key,
        Err(_) => panic!("the secret key one was refused"),
    }
}

fn signature() -> Arc<Signature> {
    MainSecretKey::new(secret()).sign(b"parts".to_vec())
}

#[test]
fn pointer_address_hex_and_owner() {
    let address = PointerAddress::new(owner());
    assert_eq!(address.to_hex(), GENERATOR);
    assert_eq!(address.owner().to_hex(), GENERATOR);
    let parsed = PointerAddress::from_hex(GENERATOR.to_string()).unwrap();
    assert_eq!(parsed.to_hex(), GENERATOR);
    match PointerAddress::from_hex("zz".to_string()) {
        Err(PointerError::ParsingFailed { reason }) => {
            assert_eq!(reason, "Failed to parse hex: Failed to convert the key from hex")
        }
        _ => panic!("a text that is no hexadecimal was read as an address"),
    }
    match PointerAddress::from_hex("00".repeat(48)) {
        Err(PointerError::ParsingFailed { reason }) => {
            assert_eq!(reason, "Failed to parse hex: Invalid bytes representation.")
        }
        _ => panic!("bytes that are no key were read as an address"),
    }
}

#[test]
fn pointer_targets() {
    let chunk = ChunkAddress::new(vec![0x11; 32]).unwrap();
    let to_chunk = PointerTarget::chunk(chunk);
    assert_eq!(to_chunk.to_hex(), "11".repeat(32));
    assert!(matches!(to_chunk.kind(), Target::Chunk(_)));
    let to_pointer = PointerTarget::pointer(PointerAddress::new(owner()));
    assert_eq!(to_pointer.to_hex(), GENERATOR);
    assert!(matches!(to_pointer.kind(), Target::Pointer(_)));
    let to_entry = PointerTarget::graph_entry(GraphEntryAddress::new(owner()));
    assert_eq!(to_entry.to_hex(), GENERATOR);
    assert!(matches!(to_entry.kind(), Target::GraphEntry(_)));
    let to_pad = PointerTarget::scratchpad(ScratchpadAddress::new(owner()));
    assert_eq!(to_pad.to_hex(), GENERATOR);
    assert!(matches!(to_pad.kind(), Target::Scratchpad(_)));
}

#[test]
fn network_pointer_parts() {
    let target = PointerTarget::chunk(ChunkAddress::new(vec![0x22; 32]).unwrap());
    let pointer = NetworkPointer::from_parts(owner(), 42, target, signature());
    assert_eq!(pointer.counter(), 42);
    assert_eq!(pointer.address().to_hex(), GENERATOR);
    assert_eq!(pointer.target().to_hex(), "22".repeat(32));
    assert_eq!(pointer.signature().to_bytes(), signature().to_bytes());
    let newest = NetworkPointer::from_parts(owner(), u64::MAX, pointer.target(), signature());
    assert_eq!(newest.counter(), u64::MAX);
}

#[test]
fn scratchpad_address_hex_and_owner() {
    let address = ScratchpadAddress::new(owner());
    assert_eq!(address.to_hex(), GENERATOR);
    assert_eq!(address.owner().to_hex(), GENERATOR);
    assert_eq!(ScratchpadAddress::from_hex(GENERATOR.to_string()).unwrap().to_hex(), GENERATOR);
    match ScratchpadAddress::from_hex("0".to_string()) {
        Err(ScratchpadError::ParsingFailed { reason }) => {
            assert_eq!(reason, "Failed to parse hex: Failed to convert the key from hex")
        }
        _ => panic!("a text that is no hexadecimal was read as an address"),
    }
}

#[test]
fn scratchpad_parts_and_decryption() {
    let key = blsttc::SecretKey::from_hex(SECRET_ONE).unwrap();
    let encrypted = key.public_key().encrypt(b"the plain data").to_bytes();
    let pad = Scratchpad::from_parts(
        ScratchpadAddress::new(owner()),
        7,
        encrypted.clone(),
        3,
        signature(),
    );
    assert_eq!(pad.data_encoding(), 7);
    assert_eq!(pad.counter(), 3);
    assert_eq!(pad.address().to_hex(), GENERATOR);
    assert_eq!(pad.owner().to_hex(), GENERATOR);
    assert_eq!(pad.encrypted_data(), encrypted);
    assert_eq!(pad.signature().to_bytes(), signature().to_bytes());
    match pad.decrypt_data(secret()) {
        Ok(plain) => assert_eq!(plain, b"the plain data".to_vec()),
        Err(_) => panic!("the owner could not decrypt"),
    }
}

#[test]
fn scratchpad_decryption_fails_on_what_is_no_ciphertext() {
    let pad = Scratchpad::from_parts(
        ScratchpadAddress::new(owner()),
        0,
        vec![1, 2, 3],
        0,
        signature(),
    );
    match pad.decrypt_data(secret()) {
        Err(ScratchpadError::DecryptionFailed { reason }) => {
            assert_eq!(reason, "Failed to decrypt: the data is no ciphertext")
        }
        _ => panic!("three bytes were decrypted"),
    }
    let empty = Scratchpad::from_parts(ScratchpadAddress::new(owner()), 0, Vec::new(), 0, signature());
    assert!(matches!(
        empty.decrypt_data(secret()),
        Err(ScratchpadError::DecryptionFailed { .. })
    ));
    assert_eq!(empty.encrypted_data(), Vec::<u8>::new());
}

#[test]
fn scratchpad_decryption_fails_on_a_ciphertext_that_was_changed() {
    let key = blsttc::SecretKey::from_hex(SECRET_ONE).unwrap();
    let mut encrypted = key.public_key().encrypt(b"the plain data").to_bytes();
    let last = encrypted.len() - 1;
    encrypted[last] ^= 1;
    let pad = Scratchpad::from_parts(ScratchpadAddress::new(owner()), 0, encrypted, 0, signature());
    match pad.decrypt_data(secret()) {
        Err(ScratchpadError::DecryptionFailed { reason }) => {
            assert_eq!(reason, "Failed to decrypt: the ciphertext is not valid")
        }
        _ => panic!("a ciphertext that was changed was decrypted"),
    }
}

#[test]
fn graph_entry_address_hex() {
    let address = GraphEntryAddress::new(owner());
    assert_eq!(address.to_hex(), GENERATOR);
    assert_eq!(address.owner().to_hex(), GENERATOR);
    assert_eq!(GraphEntryAddress::from_hex(GENERATOR.to_string()).unwrap().to_hex(), GENERATOR);
    match GraphEntryAddress::from_hex("zz".to_string()) {
        Err(GraphEntryError::ParsingFailed { reason }) => {
            assert_eq!(reason, "Failed to convert the key from hex")
        }
        _ => panic!("a text that is no hexadecimal was read as an address"),
    }
    match GraphEntryAddress::from_hex("00".repeat(48)) {
        Err(GraphEntryError::ParsingFailed { reason }) => {
            assert_eq!(reason, "Invalid bytes representation.")
        }
        _ => panic!("bytes that are no key were read as an address"),
    }
}

fn descendant(content: Vec<u8>) -> GraphDescendant {
    GraphDescendant { public_key: owner(), content }
}

#[test]
fn graph_entry_keeps_its_parts() {
    let entry = match GraphEntry::new(
        owner(),
        vec![owner(), owner()],
        vec![5; 32],
        vec![descendant(vec![1; 32]), descendant(vec![2; 32])],
        signature(),
    ) {
        Ok(entry) => entry,
        Err(_) => panic!("a well-formed entry was refused"),
    };
    assert_eq!(entry.content(), vec![5; 32]);
    assert_eq!(entry.address().to_hex(), GENERATOR);
    let parents = entry.parents();
    assert_eq!(parents.len(), 2);
    assert_eq!(parents[1].to_hex(), GENERATOR);
    let descendants = entry.descendants();
    assert_eq!(descendants.len(), 2);
    assert_eq!(descendants[0].content, vec![1; 32]);
    assert_eq!(descendants[1].content, vec![2; 32]);
    assert_eq!(descendants[1].public_key.to_hex(), GENERATOR);
    assert_eq!(entry.signature().to_bytes(), signature().to_bytes());
}

#[test]
fn graph_entry_without_parents_or_descendants() {
    match GraphEntry::new(owner(), Vec::new(), vec![0; 32], Vec::new(), signature()) {
        Ok(entry) => {
            assert!(entry.parents().is_empty());
            assert!(entry.descendants().is_empty());
        }
        Err(_) => panic!("a well-formed entry was refused"),
    }
}

fn graph_reason(r: Result<Arc<GraphEntry>, GraphEntryError>) -> String {
    match r {
        Err(GraphEntryError::InvalidContent { reason }) => reason,
        _ => panic!("a wrong size was not refused as invalid content"),
    }
}

#[test]
fn graph_entry_refuses_wrong_sizes() {
    let reason = graph_reason(GraphEntry::new(owner(), Vec::new(), vec![0; 31], Vec::new(), signature()));
    assert_eq!(reason, "Content must be exactly 32 bytes, got 31");
    let reason = graph_reason(GraphEntry::new(owner(), Vec::new(), Vec::new(), Vec::new(), signature()));
    assert_eq!(reason, "Content must be exactly 32 bytes, got 0");
    let reason = graph_reason(GraphEntry::new(
        owner(),
        Vec::new(),
        vec![0; 32],
        vec![descendant(vec![0; 32]), descendant(vec![0; 5]), descendant(vec![0; 6])],
        signature(),
    ));
    assert_eq!(reason, "Descendant content must be exactly 32 bytes, got 5");
    let reason = graph_reason(GraphEntry::new(
        owner(),
        Vec::new(),
        vec![0; 33],
        vec![descendant(vec![0; 5])],
        signature(),
    ));
    assert_eq!(reason, "Content must be exactly 32 bytes, got 33");
}

#[test]
fn register_address_hex_and_owner() {
    let address = RegisterAddress::new(owner());
    assert_eq!(address.to_hex(), GENERATOR);
    assert_eq!(address.owner().to_hex(), GENERATOR);
    assert_eq!(RegisterAddress::from_hex(GENERATOR.to_string()).unwrap().to_hex(), GENERATOR);
    match RegisterAddress::from_hex("abc".to_string()) {
        Err(RegisterError::ParsingFailed { reason }) => {
            assert_eq!(reason, "Failed to parse hex: Failed to convert the key from hex")
        }
        _ => panic!("a text that is no hexadecimal was read as an address"),
    }
}

#[test]
fn register_values_are_padded_with_zeros() {
    let value = register_value_from_bytes(vec![1, 2, 3]).unwrap();
    let mut expected = vec![0u8; 32];
    expected[0] = 1;
    expected[1] = 2;
    expected[2] = 3;
    assert_eq!(value, expected);
    assert_eq!(register_value_from_bytes(Vec::new()).unwrap(), vec![0u8; 32]);
    assert_eq!(register_value_from_bytes(vec![9; 32]).unwrap(), vec![9u8; 32]);
    match register_value_from_bytes(vec![0; 33]) {
        Err(RegisterError::InvalidRegister { reason }) => {
            assert_eq!(reason, "Invalid register value: at most 32 bytes fit, got 33")
        }
        _ => panic!("33 bytes were taken as a register value"),
    }
}

#[test]
fn client_register_value_must_be_exact() {
    assert_eq!(register_value(&vec![4; 32]).unwrap(), [4u8; 32]);
    match register_value(&vec![4; 3]) {
        Err(ClientError::NetworkError { reason }) => {
            assert_eq!(reason, "Register value must be exactly 32 bytes, got 3")
        }
        _ => panic!("three bytes were taken as a register value"),
    }
    match register_value(&vec![4; 33]) {
        Err(ClientError::NetworkError { reason }) => {
            assert_eq!(reason, "Register value must be exactly 32 bytes, got 33")
        }
        _ => panic!("33 bytes were taken as a register value"),
    }
}

#[test]
fn client_reads_public_data_addresses() {
    let address = public_data_address("ab".repeat(32)).unwrap();
    assert_eq!(address.to_bytes(), vec![0xab; 32]);
    match public_data_address("ab".to_string()) {
        Err(ClientError::InvalidAddress { reason }) => {
            assert_eq!(reason, "Parsing failed: Failed to parse hex: Invalid string length")
        }
        _ => panic!("a short text was read as an address"),
    }
    match public_data_address("abc".to_string()) {
        Err(ClientError::InvalidAddress { reason }) => {
            assert_eq!(reason, "Parsing failed: Failed to parse hex: Odd number of digits")
        }
        _ => panic!("an odd number of digits was read as an address"),
    }
}

#[test]
fn vault_secret_key_hex() {
    let key = match VaultSecretKey::from_hex(SECRET_ONE.to_string()) {
        Ok(key) => key,
        Err(_) => panic!("a secret key was refused"),
    };
    assert_eq!(key.to_hex(), SECRET_ONE);
    match VaultSecretKey::from_hex("ff".repeat(32)) {
        Err(VaultError::ParsingFailed { reason }) => {
            assert_eq!(reason, "Failed to parse hex: Invalid bytes representation.")
        }
        _ => panic!("a number above the field was read as a key"),
    }
    match VaultSecretKey::from_hex("x".to_string()) {
        Err(VaultError::ParsingFailed { reason }) => {
            assert_eq!(reason, "Failed to parse hex: Failed to convert the key from hex")
        }
        _ => panic!("a text that is no hexadecimal was read as a key"),
    }
    let a = VaultSecretKey::random();
    let b = VaultSecretKey::random();
    assert_eq!(a.to_hex().len(), 64);
    assert!(a.to_hex() != b.to_hex());
}

#[test]
fn user_data_lists_archives_in_order() {
    let empty = UserData::new();
    assert!(empty.file_archives().is_empty());
    assert!(empty.private_file_archives().is_empty());
    let first = ArchiveAddress::from_hex("01".repeat(32)).unwrap();
    let second = ArchiveAddress::from_hex("02".repeat(32)).unwrap();
    let map = match PrivateArchiveDataMap::from_hex("beef".to_string()) {
        Ok(map) => map,
        Err(_) => panic!("hexadecimal text was refused"),
    };
    let data = empty
        .with_file_archive(first, "photos".to_string())
        .with_private_file_archive(map, "letters".to_string())
        .with_file_archive(second, "music".to_string());
    let public = data.file_archives();
    assert_eq!(public.len(), 2);
    assert_eq!(public[0].address, "01".repeat(32));
    assert_eq!(public[0].name, "photos");
    assert_eq!(public[1].address, "02".repeat(32));
    assert_eq!(public[1].name, "music");
    let private = data.private_file_archives();
    assert_eq!(private.len(), 1);
    assert_eq!(private[0].data_map, "beef");
    assert_eq!(private[0].name, "letters");
    assert!(empty.file_archives().is_empty());
}

#[test]
fn user_data_keeps_one_name_for_each_archive() {
    let first = ArchiveAddress::from_hex("01".repeat(32)).unwrap();
    let second = ArchiveAddress::from_hex("02".repeat(32)).unwrap();
    let data = UserData::new()
        .with_file_archive(first.clone(), "photos".to_string())
        .with_file_archive(second, "music".to_string())
        .with_file_archive(first, "pictures".to_string());
    let public = data.file_archives();
    assert_eq!(public.len(), 2);
    assert_eq!(public[0].address, "01".repeat(32));
    assert_eq!(public[0].name, "pictures");
    assert_eq!(public[1].address, "02".repeat(32));
    assert_eq!(public[1].name, "music");

    let map = |text: &str| match PrivateArchiveDataMap::from_hex(text.to_string()) {
        Ok(map) => map,
        Err(_) => panic!("hexadecimal text was refused"),
    };
    let data = data
        .with_private_file_archive(map("beef"), "letters".to_string())
        .with_private_file_archive(map("be"), "notes".to_string())
        .with_private_file_archive(map("BEEF"), "mail".to_string());
    let private = data.private_file_archives();
    assert_eq!(private.len(), 2);
    assert_eq!(private[0].data_map, "beef");
    assert_eq!(private[0].name, "mail");
    assert_eq!(private[1].data_map, "be");
    assert_eq!(private[1].name, "notes");
    assert_eq!(data.file_archives().len(), 2);
}

#[test]
fn byte_strings_are_compared_byte_by_byte() {
    assert!(bytes_equal(&Vec::new(), &Vec::new()));
    assert!(bytes_equal(&vec![1, 2, 3], &vec![1, 2, 3]));
    assert!(!bytes_equal(&vec![1, 2, 3], &vec![1, 2, 4]));
    assert!(!bytes_equal(&vec![1, 2, 3], &vec![1, 2]));
    assert!(!bytes_equal(&Vec::new(), &vec![0]));
}

#[test]
fn private_and_loopback_ranges() {
    assert!(ip4_is_private(&[10, 0, 0, 1]));
    assert!(ip4_is_private(&[10, 255, 255, 255]));
    assert!(ip4_is_private(&[172, 16, 0, 0]));
    assert!(ip4_is_private(&[172, 31, 255, 255]));
    assert!(!ip4_is_private(&[172, 15, 255, 255]));
    assert!(!ip4_is_private(&[172, 32, 0, 0]));
    assert!(ip4_is_private(&[192, 168, 1, 1]));
    assert!(!ip4_is_private(&[192, 169, 1, 1]));
    assert!(!ip4_is_private(&[11, 0, 0, 1]));
    assert!(!ip4_is_private(&[127, 0, 0, 1]));
    assert!(ip4_is_loopback(&[127, 0, 0, 1]));
    assert!(ip4_is_loopback(&[127, 255, 255, 255]));
    assert!(!ip4_is_loopback(&[128, 0, 0, 1]));
    assert!(!ip4_is_loopback(&[126, 0, 0, 1]));
    let mut private = 0;
    let mut loopback = 0;
    for a in 0..=255u8 {
        for b in 0..=255u8 {
            if ip4_is_private(&[a, b, 3, 4]) {
                private += 1;
            }
            if ip4_is_loopback(&[a, b, 3, 4]) {
                loopback += 1;
            }
        }
    }
    assert_eq!(private, 256 + 16 + 1);
    assert_eq!(loopback, 256);
}

#[test]
fn global_parts_make_an_address_global() {
    assert!(!address_is_global(&Vec::new()));
    assert!(!address_is_global(&vec![Component::Other, Component::Ip4([10, 0, 2, 2])]));
    assert!(!address_is_global(&vec![Component::Ip4([127, 0, 0, 1]), Component::Other]));
    assert!(address_is_global(&vec![Component::Other, Component::Ip4([8, 8, 8, 8])]));
    assert!(address_is_global(&vec![
        Component::Ip4([192, 168, 0, 1]),
        Component::Ip4([1, 1, 1, 1])
    ]));
}

fn plan(peers: &[&str]) -> Result<(bool, Vec<String>), String> {
    let peers: Vec<String> = peers.iter().map(|p| p.to_string()).collect();
    match plan_peers(&peers) {
        Ok(plan) => Ok((plan.local, plan.peers)),
        Err(ClientError::InitializationFailed { reason }) => Err(reason),
        Err(_) => panic!("the wrong kind of error came"),
    }
}

#[test]
fn peers_on_private_addresses_keep_the_client_local() {
    let (local, peers) = plan(&["/ip4/10.0.2.2/tcp/12000", "/ip4/127.0.0.1/udp/4001"]).unwrap();
    assert!(local);
    assert_eq!(peers, vec!["/ip4/10.0.2.2/tcp/12000", "/ip4/127.0.0.1/udp/4001"]);
    let (local, _) = plan(&["/ip4/192.168.1.5/tcp/1", "/ip4/172.20.0.9/tcp/2"]).unwrap();
    assert!(local);
    let (local, _) = plan(&["/dns4/example.com/tcp/443"]).unwrap();
    assert!(local);
}

#[test]
fn one_global_peer_makes_the_client_not_local() {
    let (local, peers) = plan(&["/ip4/10.0.2.2/tcp/12000", "/ip4/8.8.8.8/tcp/12000"]).unwrap();
    assert!(!local);
    assert_eq!(peers.len(), 2);
    let (local, _) = plan(&["/ip4/172.32.0.1/tcp/1"]).unwrap();
    assert!(!local);
    let (local, _) = plan(&["/ip4/8.8.8.8/tcp/1", "/ip4/10.0.0.1/tcp/1"]).unwrap();
    assert!(!local);
}

#[test]
fn texts_that_are_no_addresses_are_dropped() {
    let (local, peers) =
        plan(&["nonsense", "/ip4/10.0.2.2/tcp/12000", "", "/ip4/999.0.0.1/tcp/1"]).unwrap();
    assert!(local);
    assert_eq!(peers, vec!["/ip4/10.0.2.2/tcp/12000", ""]);
    let (local, peers) = plan(&["ip4/8.8.8.8", "/ip4/127.0.0.1/tcp/1"]).unwrap();
    assert!(local);
    assert_eq!(peers, vec!["/ip4/127.0.0.1/tcp/1"]);
}

#[test]
fn the_empty_text_is_the_empty_address() {
    let (local, peers) = plan(&[""]).unwrap();
    assert!(local);
    assert_eq!(peers, vec![""]);
}

#[test]
fn no_valid_peer_is_an_error() {
    assert_eq!(plan(&[]).unwrap_err(), "No valid peer addresses provided");
    assert_eq!(plan(&["nonsense", "10.0.0.1"]).unwrap_err(), "No valid peer addresses provided");
}

#[test]
fn stream_events_become_results() {
    let stream = DataStream::new(1000);
    match stream.data_size() {
        Ok(size) => assert_eq!(size, 1000),
        Err(_) => panic!("the size was not told"),
    }
    match stream.next_chunk(StreamEvent::Chunk(vec![1, 2])) {
        Ok(Some(bytes)) => assert_eq!(bytes, vec![1, 2]),
        _ => panic!("a piece was not handed on"),
    }
    assert!(matches!(stream.next_chunk(StreamEvent::Exhausted), Ok(None)));
    match stream.next_chunk(StreamEvent::Failed("timed out".to_string())) {
        Err(ClientError::NetworkError { reason }) => assert_eq!(reason, "Stream error: timed out"),
        _ => panic!("a failure was not reported"),
    }
    match DataStream::range_failed("out of bounds") {
        ClientError::NetworkError { reason } => {
            assert_eq!(reason, "Read range error: out of bounds")
        }
        _ => panic!("the wrong kind of error came"),
    }
}

#[test]
fn collector_puts_the_pieces_together() {
    let mut collector = Collector::new();
    assert!(matches!(collector.accept(StreamEvent::Chunk(vec![1, 2])), Progress::Pull));
    assert!(matches!(collector.accept(StreamEvent::Chunk(Vec::new())), Progress::Pull));
    assert!(matches!(collector.accept(StreamEvent::Chunk(vec![3])), Progress::Pull));
    assert!(matches!(collector.accept(StreamEvent::Exhausted), Progress::Complete));
    assert_eq!(collector.into_bytes(), vec![1, 2, 3]);

    let mut empty = Collector::new();
    assert!(matches!(empty.accept(StreamEvent::Exhausted), Progress::Complete));
    assert_eq!(empty.into_bytes(), Vec::<u8>::new());

    let mut failing = Collector::new();
    failing.accept(StreamEvent::Chunk(vec![7]));
    match failing.accept(StreamEvent::Failed("lost".to_string())) {
        Progress::GivenUp(ClientError::NetworkError { reason }) => {
            assert_eq!(reason, "Stream error: lost")
        }
        _ => panic!("a failure did not end the collection"),
    }
    assert_eq!(failing.into_bytes(), vec![7]);
}

#[test]
fn ranges_fit_the_machine_word() {
    let stream = DataStream::new(0);
    assert!(matches!(stream.get_range(0, 0), Ok((0, 0))));
    assert!(matches!(stream.get_range(10, 20), Ok((10, 20))));
    assert!(matches!(stream.get_range(usize::MAX as u64, 1), Ok((usize::MAX, 1))));
}

#[test]
fn a_whole_stream_is_collected_up_to_its_end() {
    let events = vec![
        StreamEvent::Chunk(vec![1, 2]),
        StreamEvent::Chunk(vec![3]),
        StreamEvent::Exhausted,
        StreamEvent::Chunk(vec![9]),
    ];
    let stream = DataStream::new(3);
    assert_eq!(stream.collect_all(&events).unwrap(), vec![1, 2, 3]);
    assert_eq!(stream.collect_all(&vec![StreamEvent::Exhausted]).unwrap(), Vec::<u8>::new());
    assert_eq!(stream.collect_all(&Vec::new()).unwrap(), Vec::<u8>::new());
    assert_eq!(stream.collect_all(&vec![StreamEvent::Chunk(vec![5])]).unwrap(), vec![5]);
    let failing = vec![
        StreamEvent::Chunk(vec![1]),
        StreamEvent::Failed("gone".to_string()),
        StreamEvent::Exhausted,
    ];
    match stream.collect_all(&failing) {
        Err(ClientError::NetworkError { reason }) => assert_eq!(reason, "Stream error: gone"),
        _ => panic!("a failure did not end the collection"),
    }
    let late_failure = vec![StreamEvent::Exhausted, StreamEvent::Failed("late".to_string())];
    assert_eq!(stream.collect_all(&late_failure).unwrap(), Vec::<u8>::new());
}
