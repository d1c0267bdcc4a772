//! Chunks of data and the addresses under which the network keeps them.

use crate::buffer;
use crate::filetable::Payload;
use crate::hexcode::{
    decode, encode, hex_encoding, hex_refused, hex_refused_any, hex_spells, hex_spells_any,
    parse_reason, HexError,
};
use crate::text::{decimal_text, with_number};
use crate::xorname::{XorName, XOR_NAME_LEN};
use std::sync::Arc;
use vstd::prelude::*;

verus! {

/// The largest content that a chunk may carry before it is encrypted: 4 MiB.
pub const MAX_RAW_SIZE: usize = 4194304;

/// The largest content that a chunk may carry once it is encrypted: 32 bytes
/// above `MAX_RAW_SIZE`.
pub const MAX_SIZE: usize = 4194336;

/// Why a piece of data or an address was refused.
#[derive(Debug)]
pub enum DataError {
    /// The bytes do not make the value asked for.
    InvalidData { reason: String },
    /// The text is no encoding of the value asked for.
    ParsingFailed { reason: String },
}

/// The reason given for a name of `n` bytes where 32 are needed.
pub open spec fn name_length_reason(n: nat) -> Seq<char> {
    "XorName must be exactly 32 bytes, got "@ + decimal_text(n)
}

/// What building an address from raw bytes owes: the address of those bytes
/// when there are 32 of them, and `InvalidData` with the count otherwise.
pub open spec fn name_from_bytes_outcome(bytes: Seq<u8>, r: Result<Seq<u8>, DataError>) -> bool {
    match r {
        Ok(name) => bytes.len() == XOR_NAME_LEN && name == bytes,
        Err(DataError::InvalidData { reason }) => bytes.len() != XOR_NAME_LEN && reason@
            == name_length_reason(bytes.len()),
        Err(DataError::ParsingFailed { .. }) => false,
    }
}

/// What reading an address from hexadecimal text owes: the address that the
/// 64 digits spell, and `ParsingFailed` with the decoder's reason otherwise.
pub open spec fn name_from_hex_outcome(text: Seq<char>, r: Result<Seq<u8>, DataError>) -> bool {
    match r {
        Ok(name) => hex_spells(text, XOR_NAME_LEN as int, name),
        Err(DataError::ParsingFailed { reason }) => hex_refused(
            text,
            XOR_NAME_LEN as int,
            reason@,
        ),
        Err(DataError::InvalidData { .. }) => false,
    }
}

/// The name that `bytes` spells, or the error that says how many bytes came.
pub fn name_from_bytes(bytes: &Vec<u8>) -> (r: Result<XorName, DataError>)
    ensures
        name_from_bytes_outcome(
            bytes@,
            match r {
                Ok(name) => Ok(name@),
                Err(e) => Err(e),
            },
        ),
{
    match XorName::from_vec(bytes) {
        Some(name) => Ok(name),
        None => Err(
            DataError::InvalidData {
                reason: with_number("XorName must be exactly 32 bytes, got ", bytes.len()),
            },
        ),
    }
}

/// The error that reports a text which `e` rules out.
pub fn parsing_failed(e: HexError) -> (err: DataError)
    ensures
        err matches DataError::ParsingFailed { reason } && reason@ == parse_reason(e),
{
    DataError::ParsingFailed { reason: e.parse_failure() }
}

/// The name that the hexadecimal text spells, or the error that says why it
/// spells none.
pub fn name_from_hex(text: &str) -> (r: Result<XorName, DataError>)
    ensures
        name_from_hex_outcome(
            text@,
            match r {
                Ok(name) => Ok(name@),
                Err(e) => Err(e),
            },
        ),
{
    match XorName::from_hex(text) {
        Ok(name) => Ok(name),
        Err(e) => Err(parsing_failed(e)),
    }
}

/// The address of a chunk: the name under which its content is kept.
#[derive(Clone, Copy, Debug)]
pub struct ChunkAddress {
    name: XorName,
}

impl View for ChunkAddress {
    type V = Seq<u8>;

    closed spec fn view(&self) -> Seq<u8> {
        self.name@
    }
}

impl ChunkAddress {
    /// The address with the name `name`.
    pub fn from_name(name: XorName) -> (address: ChunkAddress)
        ensures
            address@ == name@,
    {
        ChunkAddress { name }
    }

    /// The name that is the address.
    pub fn name(&self) -> (name: XorName)
        ensures
            name@ == self@,
    {
        self.name
    }

    /// The address made of 32 raw bytes.
    pub fn new(bytes: Vec<u8>) -> (r: Result<Arc<ChunkAddress>, DataError>)
        ensures
            name_from_bytes_outcome(
                bytes@,
                match r {
                    Ok(address) => Ok(address@),
                    Err(e) => Err(e),
                },
            ),
    {
        match name_from_bytes(&bytes) {
            Ok(name) => Ok(Arc::new(ChunkAddress { name })),
            Err(e) => Err(e),
        }
    }

    /// The address that 64 hexadecimal digits spell.
    pub fn from_hex(hex: String) -> (r: Result<Arc<ChunkAddress>, DataError>)
        ensures
            name_from_hex_outcome(
                hex@,
                match r {
                    Ok(address) => Ok(address@),
                    Err(e) => Err(e),
                },
            ),
    {
        match name_from_hex(hex.as_str()) {
            Ok(name) => Ok(Arc::new(ChunkAddress { name })),
            Err(e) => Err(e),
        }
    }

    /// The address as 64 lower-case hexadecimal digits.
    pub fn to_hex(&self) -> (text: String)
        ensures
            text@ == hex_encoding(self@),
    {
        self.name.to_hex()
    }

    /// The 32 raw bytes of the address.
    pub fn to_bytes(&self) -> (bytes: Vec<u8>)
        ensures
            bytes@ == self@,
            bytes@.len() == XOR_NAME_LEN,
    {
        self.name.to_vec()
    }
}

/// The address of public data: the name of the chunk that holds its data map.
#[derive(Clone, Copy, Debug)]
pub struct DataAddress {
    name: XorName,
}

impl View for DataAddress {
    type V = Seq<u8>;

    closed spec fn view(&self) -> Seq<u8> {
        self.name@
    }
}

impl DataAddress {
    /// The address with the name `name`.
    pub fn from_name(name: XorName) -> (address: DataAddress)
        ensures
            address@ == name@,
    {
        DataAddress { name }
    }

    /// The name that is the address.
    pub fn name(&self) -> (name: XorName)
        ensures
            name@ == self@,
    {
        self.name
    }

    /// The address made of 32 raw bytes.
    pub fn new(bytes: Vec<u8>) -> (r: Result<Arc<DataAddress>, DataError>)
        ensures
            name_from_bytes_outcome(
                bytes@,
                match r {
                    Ok(address) => Ok(address@),
                    Err(e) => Err(e),
                },
            ),
    {
        match name_from_bytes(&bytes) {
            Ok(name) => Ok(Arc::new(DataAddress { name })),
            Err(e) => Err(e),
        }
    }

    /// The address that 64 hexadecimal digits spell.
    pub fn from_hex(hex: String) -> (r: Result<Arc<DataAddress>, DataError>)
        ensures
            name_from_hex_outcome(
                hex@,
                match r {
                    Ok(address) => Ok(address@),
                    Err(e) => Err(e),
                },
            ),
    {
        match name_from_hex(hex.as_str()) {
            Ok(name) => Ok(Arc::new(DataAddress { name })),
            Err(e) => Err(e),
        }
    }

    /// The address as 64 lower-case hexadecimal digits.
    pub fn to_hex(&self) -> (text: String)
        ensures
            text@ == hex_encoding(self@),
    {
        self.name.to_hex()
    }

    /// The 32 raw bytes of the address.
    pub fn to_bytes(&self) -> (bytes: Vec<u8>)
        ensures
            bytes@ == self@,
            bytes@.len() == XOR_NAME_LEN,
    {
        self.name.to_vec()
    }
}

impl Payload for DataAddress {
    open spec fn payload(&self) -> Seq<u8> {
        self@
    }

    fn duplicate(&self) -> (other: DataAddress) {
        *self
    }
}

/// A chunk: a piece of content together with the address it is kept under.
pub struct Chunk {
    address: ChunkAddress,
    value: bytes::Bytes,
}

impl Chunk {
    /// The content of the chunk.
    pub closed spec fn content(&self) -> Seq<u8> {
        buffer::contents(self.value)
    }

    /// The address of the chunk.
    pub closed spec fn location(&self) -> Seq<u8> {
        self.address@
    }

    /// The chunk that keeps `value` under `address`. Whether the address is
    /// the one that the network derives from the content is not looked into.
    pub fn with_address(address: ChunkAddress, value: Vec<u8>) -> (chunk: Arc<Chunk>)
        ensures
            chunk.content() == value@,
            chunk.location() == address@,
    {
        Arc::new(Chunk { address, value: buffer::from_vec(value) })
    }

    /// A copy of the content.
    pub fn value(&self) -> (bytes: Vec<u8>)
        ensures
            bytes@ == self.content(),
    {
        buffer::to_vec(&self.value)
    }

    /// The address the chunk is kept under.
    pub fn address(&self) -> (address: Arc<ChunkAddress>)
        ensures
            address@ == self.location(),
    {
        Arc::new(self.address)
    }

    /// The number of bytes of content.
    pub fn size(&self) -> (n: u64)
        ensures
            n == self.content().len(),
    {
        buffer::len(&self.value) as u64
    }

    /// Whether the content is above `MAX_SIZE`, the most that the network
    /// stores in one chunk.
    pub fn is_too_big(&self) -> (b: bool)
        ensures
            b == (self.content().len() > MAX_SIZE),
    {
        buffer::len(&self.value) > MAX_SIZE
    }
}

/// The largest content of a chunk before encryption, in bytes.
pub fn chunk_max_raw_size() -> (n: u64)
    ensures
        n == MAX_RAW_SIZE,
        n == 4 * 1024 * 1024,
{
    MAX_RAW_SIZE as u64
}

/// The largest content of a chunk after encryption, in bytes.
pub fn chunk_max_size() -> (n: u64)
    ensures
        n == MAX_SIZE,
        n == MAX_RAW_SIZE + 32,
{
    MAX_SIZE as u64
}

/// What retrieving private data needs: the serialised data map, kept as the
/// content of a chunk that never leaves the client.
pub struct DataMapChunk {
    value: bytes::Bytes,
}

impl View for DataMapChunk {
    type V = Seq<u8>;

    closed spec fn view(&self) -> Seq<u8> {
        buffer::contents(self.value)
    }
}

/// What reading a data map from hexadecimal text owes: the bytes that the
/// digits spell, and `ParsingFailed` with the decoder's reason otherwise.
pub open spec fn data_map_from_hex_outcome(text: Seq<char>, r: Result<Seq<u8>, DataError>) -> bool {
    match r {
        Ok(bytes) => hex_spells_any(text, bytes),
        Err(DataError::ParsingFailed { reason }) => hex_refused_any(text, reason@),
        Err(DataError::InvalidData { .. }) => false,
    }
}

impl DataMapChunk {
    /// The data map with the serialised form `bytes`.
    pub fn from_bytes(bytes: Vec<u8>) -> (map: DataMapChunk)
        ensures
            map@ == bytes@,
    {
        DataMapChunk { value: buffer::from_vec(bytes) }
    }

    /// The data map that the hexadecimal text spells: any even number of
    /// digits of either case.
    pub fn from_hex(hex: String) -> (r: Result<Arc<DataMapChunk>, DataError>)
        ensures
            data_map_from_hex_outcome(
                hex@,
                match r {
                    Ok(map) => Ok(map@),
                    Err(e) => Err(e),
                },
            ),
    {
        match decode(hex.as_str()) {
            Ok(bytes) => Ok(Arc::new(DataMapChunk { value: buffer::from_vec(bytes) })),
            Err(e) => Err(parsing_failed(e)),
        }
    }

    /// The serialised data map as lower-case hexadecimal digits.
    pub fn to_hex(&self) -> (text: String)
        ensures
            text@ == hex_encoding(self@),
    {
        let bytes = buffer::to_vec(&self.value);
        encode(&bytes)
    }

    /// The bytes of the serialised data map.
    pub fn to_bytes(&self) -> (bytes: Vec<u8>)
        ensures
            bytes@ == self@,
    {
        buffer::to_vec(&self.value)
    }

    /// A second handle on the same data map.
    pub fn share(&self) -> (other: DataMapChunk)
        ensures
            other@ == self@,
    {
        DataMapChunk { value: buffer::share(&self.value) }
    }
}

impl Payload for DataMapChunk {
    open spec fn payload(&self) -> Seq<u8> {
        self@
    }

    fn duplicate(&self) -> (other: DataMapChunk) {
        self.share()
    }
}

} // verus!
