use ant_bindings::data::{
    chunk_max_raw_size, chunk_max_size, Chunk, ChunkAddress, DataAddress, DataError,
    DataMapChunk,
};
use ant_bindings::hexcode::HexError;
use ant_bindings::text::{join, owned, with_number};
use ant_bindings::xorname::{XorName, XOR_NAME_LEN};

fn reason_of(err: DataError) -> (bool, String) {
    match err {
        DataError::InvalidData { reason } => (true, reason),
        DataError::ParsingFailed { reason } => (false, reason),
    }
}

#[test]
fn chunk_address_from_32_bytes() {
    let bytes: Vec<u8> = (0u8..32).collect();
    let address = ChunkAddress::new(bytes.clone()).unwrap();
    assert_eq!(address.to_bytes(), bytes);
    assert_eq!(
        address.to_hex(),
        "000102030405060708090a0b0c0d0e0f101112131415161718191a1b1c1d1e1f"
    );
}

#[test]
fn chunk_address_refuses_other_lengths() {
    let (invalid, reason) = reason_of(ChunkAddress::new(vec![0u8; 31]).unwrap_err());
    assert!(invalid);
    assert_eq!(reason, "XorName must be exactly 32 bytes, got 31");
    let (invalid, reason) = reason_of(ChunkAddress::new(Vec::new()).unwrap_err());
    assert!(invalid);
    assert_eq!(reason, "XorName must be exactly 32 bytes, got 0");
    let (invalid, reason) = reason_of(ChunkAddress::new(vec![7u8; 100]).unwrap_err());
    assert!(invalid);
    assert_eq!(reason, "XorName must be exactly 32 bytes, got 100");
}

#[test]
fn chunk_address_hex_round_trip() {
    let text = "ffeeddccbbaa99887766554433221100ffeeddccbbaa99887766554433221100";
    let address = ChunkAddress::from_hex(text.to_string()).unwrap();
    assert_eq!(address.to_hex(), text);
    assert_eq!(address.to_bytes()[0], 0xff);
    assert_eq!(address.to_bytes()[31], 0x00);
    let again = ChunkAddress::new(address.to_bytes()).unwrap();
    assert_eq!(again.to_hex(), text);
}

#[test]
fn hex_digits_of_either_case_are_read() {
    let upper = "FFEEDDCCBBAA99887766554433221100FFEEDDCCBBAA99887766554433221100";
    let mixed = "fFeEdDcCbBaA99887766554433221100fFeEdDcCbBaA99887766554433221100";
    let a = DataAddress::from_hex(upper.to_string()).unwrap();
    let b = DataAddress::from_hex(mixed.to_string()).unwrap();
    assert_eq!(a.to_bytes(), b.to_bytes());
    assert_eq!(a.to_hex(), upper.to_lowercase());
}

#[test]
fn address_from_hex_says_why_it_fails() {
    let (invalid, reason) = reason_of(ChunkAddress::from_hex("abc".to_string()).unwrap_err());
    assert!(!invalid);
    assert_eq!(reason, "Failed to parse hex: Odd number of digits");

    let (invalid, reason) = reason_of(ChunkAddress::from_hex("abcd".to_string()).unwrap_err());
    assert!(!invalid);
    assert_eq!(reason, "Failed to parse hex: Invalid string length");

    let (_, reason) = reason_of(ChunkAddress::from_hex(String::new()).unwrap_err());
    assert_eq!(reason, "Failed to parse hex: Invalid string length");

    let bad = format!("{}g{}", "0".repeat(10), "0".repeat(53));
    let (invalid, reason) = reason_of(DataAddress::from_hex(bad).unwrap_err());
    assert!(!invalid);
    assert_eq!(reason, "Failed to parse hex: Invalid character 'g' at position 10");

    let long = "0".repeat(66);
    let (_, reason) = reason_of(DataAddress::from_hex(long).unwrap_err());
    assert_eq!(reason, "Failed to parse hex: Invalid string length");
}

#[test]
fn data_address_from_32_bytes() {
    let address = DataAddress::new(vec![0xab; 32]).unwrap();
    assert_eq!(address.to_bytes(), vec![0xab; 32]);
    assert_eq!(address.to_hex(), "ab".repeat(32));
    let (invalid, reason) = reason_of(DataAddress::new(vec![1, 2, 3]).unwrap_err());
    assert!(invalid);
    assert_eq!(reason, "XorName must be exactly 32 bytes, got 3");
}

#[test]
fn xor_name_conversions() {
    assert_eq!(XOR_NAME_LEN, 32);
    assert!(XorName::from_vec(&vec![0u8; 31]).is_none());
    assert!(XorName::from_vec(&vec![0u8; 33]).is_none());
    let name = XorName::from_vec(&vec![9u8; 32]).unwrap();
    assert_eq!(name.to_vec(), vec![9u8; 32]);
    assert_eq!(name.to_hex(), "09".repeat(32));
    let parsed = XorName::from_hex(&"09".repeat(32)).unwrap();
    assert_eq!(parsed.to_vec(), name.to_vec());
    assert!(matches!(XorName::from_hex("0"), Err(HexError::OddLength)));
    assert!(matches!(XorName::from_hex("00"), Err(HexError::InvalidStringLength)));
    let bad = format!("{}{}", "0".repeat(63), "\u{e9}");
    assert!(matches!(XorName::from_hex(&bad), Err(HexError::OddLength) | Err(HexError::InvalidStringLength) | Err(HexError::InvalidHexCharacter { .. })));
    let bad = format!("{}x", "0".repeat(63));
    assert!(matches!(
        XorName::from_hex(&bad),
        Err(HexError::InvalidHexCharacter { c: 'x', index: 63 })
    ));
}

#[test]
fn hex_error_descriptions() {
    assert_eq!(HexError::OddLength.describe(), "Odd number of digits");
    assert_eq!(HexError::InvalidStringLength.describe(), "Invalid string length");
    assert_eq!(
        HexError::InvalidHexCharacter { c: '\n', index: 5 }.describe(),
        "Invalid character '\\n' at position 5"
    );
    assert_eq!(
        HexError::InvalidHexCharacter { c: 'z', index: 120 }.parse_failure(),
        "Failed to parse hex: Invalid character 'z' at position 120"
    );
}

#[test]
fn text_helpers() {
    assert_eq!(join("ab", "cd"), "abcd");
    assert_eq!(join("", ""), "");
    assert_eq!(owned("same"), "same");
    assert_eq!(with_number("got ", 0), "got 0");
    assert_eq!(with_number("got ", 9), "got 9");
    assert_eq!(with_number("got ", 10), "got 10");
    assert_eq!(with_number("got ", 4194336), "got 4194336");
}

#[test]
fn chunk_keeps_content_and_address() {
    let address = ChunkAddress::new(vec![5u8; 32]).unwrap();
    let chunk = Chunk::with_address(*address, vec![1, 2, 3, 4]);
    assert_eq!(chunk.value(), vec![1, 2, 3, 4]);
    assert_eq!(chunk.size(), 4);
    assert_eq!(chunk.address().to_bytes(), vec![5u8; 32]);
    assert!(!chunk.is_too_big());
    let empty = Chunk::with_address(*address, Vec::new());
    assert_eq!(empty.size(), 0);
    assert_eq!(empty.value(), Vec::<u8>::new());
}

#[test]
fn chunk_size_limits() {
    assert_eq!(chunk_max_raw_size(), 4 * 1024 * 1024);
    assert_eq!(chunk_max_size(), 4 * 1024 * 1024 + 32);
    let address = ChunkAddress::new(vec![0u8; 32]).unwrap();
    let at_limit = Chunk::with_address(*address, vec![0u8; 4 * 1024 * 1024 + 32]);
    assert!(!at_limit.is_too_big());
    assert_eq!(at_limit.size(), chunk_max_size());
    let above = Chunk::with_address(*address, vec![0u8; 4 * 1024 * 1024 + 33]);
    assert!(above.is_too_big());
}

#[test]
fn data_map_chunk_hex() {
    let map = DataMapChunk::from_hex("0102030f10".to_string()).unwrap();
    assert_eq!(map.to_bytes(), vec![1, 2, 3, 15, 16]);
    assert_eq!(map.to_hex(), "0102030f10");
    assert_eq!(map.share().to_hex(), "0102030f10");
    let empty = DataMapChunk::from_hex(String::new()).unwrap();
    assert_eq!(empty.to_hex(), "");
    let from_bytes = DataMapChunk::from_bytes(vec![0xde, 0xad]);
    assert_eq!(from_bytes.to_hex(), "dead");
    match DataMapChunk::from_hex("123".to_string()) {
        Err(DataError::ParsingFailed { reason }) => {
            assert_eq!(reason, "Failed to parse hex: Odd number of digits")
        }
        _ => panic!("an odd number of digits was read"),
    }
    match DataMapChunk::from_hex("12zz".to_string()) {
        Err(DataError::ParsingFailed { reason }) => {
            assert_eq!(reason, "Failed to parse hex: Invalid character 'z' at position 2")
        }
        _ => panic!("a text that is no hexadecimal was read"),
    }
}

#[test]
fn names_as_arrays() {
    let name = XorName::from_array([3u8; 32]);
    assert_eq!(name.to_array(), [3u8; 32]);
    assert_eq!(name.to_vec(), vec![3u8; 32]);
    assert_eq!(ChunkAddress::from_name(name).name().to_array(), [3u8; 32]);
    assert_eq!(DataAddress::from_name(name).name().to_array(), [3u8; 32]);
    assert_eq!(DataAddress::from_name(name).to_hex(), "03".repeat(32));
}
