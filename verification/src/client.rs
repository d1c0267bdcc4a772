//! What the client's operations hand back, how they fail, and the checks
//! they make on their arguments before anything goes to the network.

use crate::data::{name_from_hex, ChunkAddress, DataAddress, DataError, DataMapChunk};
use crate::fixed::array_of;
use crate::graph_entry::GraphEntryAddress;
use crate::hexcode::{hex_refused, hex_spells};
use crate::pointer::PointerAddress;
use crate::registers::{RegisterAddress, REGISTER_VALUE_SIZE};
use crate::scratchpad::ScratchpadAddress;
use crate::text::{decimal_text, join, with_number};
use crate::xorname::XOR_NAME_LEN;
use std::sync::Arc;
use vstd::prelude::*;

verus! {

/// What an upload of public data gave.
#[derive(Debug)]
pub struct UploadResult {
    /// The price paid, in tokens.
    pub price: String,
    /// The address of the data, as hexadecimal text.
    pub address: String,
}

/// What an upload of a chunk gave.
pub struct ChunkPutResult {
    /// The cost paid, in tokens.
    pub cost: String,
    /// The address of the chunk.
    pub address: Arc<ChunkAddress>,
}

/// What an upload of private data gave.
pub struct DataPutResult {
    /// The cost paid, in tokens.
    pub cost: String,
    /// The data map that leads back to the data.
    pub data_map: Arc<DataMapChunk>,
}

/// What the creation of a pointer gave.
pub struct PointerCreateResult {
    /// The cost paid, in tokens.
    pub cost: String,
    /// The address of the pointer.
    pub address: Arc<PointerAddress>,
}

/// What the creation of a scratchpad gave.
pub struct ScratchpadCreateResult {
    /// The cost paid, in tokens.
    pub cost: String,
    /// The address of the scratchpad.
    pub address: Arc<ScratchpadAddress>,
}

/// What an upload of a graph entry gave.
pub struct GraphEntryPutResult {
    /// The cost paid, in tokens.
    pub cost: String,
    /// The address of the graph entry.
    pub address: Arc<GraphEntryAddress>,
}

/// What the creation of a register gave.
pub struct RegisterCreateResult {
    /// The cost paid, in tokens.
    pub cost: String,
    /// The address of the register.
    pub address: Arc<RegisterAddress>,
}

/// Why an operation of the client failed.
#[derive(Debug)]
pub enum ClientError {
    /// The network, or an argument on its way there, refused the operation.
    NetworkError { reason: String },
    /// The client could not be set up.
    InitializationFailed { reason: String },
    /// The text is no address of data.
    InvalidAddress { reason: String },
}

/// Why an operation on a wallet failed.
#[derive(Debug)]
pub enum WalletError {
    /// The wallet could not be made.
    CreationFailed { reason: String },
    /// The balance could not be read.
    BalanceCheckFailed { reason: String },
}

/// Why a network configuration was refused.
#[derive(Debug)]
pub enum NetworkError {
    /// The configuration could not be made.
    CreationFailed { reason: String },
}

/// The reason given for a register value of `n` bytes where 32 are needed.
pub open spec fn register_value_reason(n: nat) -> Seq<char> {
    "Register value must be exactly 32 bytes, got "@ + decimal_text(n)
}

/// The value of a register as the network takes it: exactly 32 bytes. Any
/// other number of bytes is refused as `NetworkError`, with the number that
/// came.
pub fn register_value(value: &Vec<u8>) -> (r: Result<[u8; 32], ClientError>)
    ensures
        match r {
            Ok(array) => value@.len() == REGISTER_VALUE_SIZE && array@ == value@,
            Err(ClientError::NetworkError { reason }) => value@.len() != REGISTER_VALUE_SIZE
                && reason@ == register_value_reason(value@.len()),
            Err(_) => false,
        },
{
    match array_of::<32>(value) {
        Some(array) => Ok(array),
        None => Err(
            ClientError::NetworkError {
                reason: with_number("Register value must be exactly 32 bytes, got ", value.len()),
            },
        ),
    }
}

/// What is said of an address text that the decoder refuses with `reason`.
pub open spec fn invalid_address_reason(reason: Seq<char>) -> Seq<char> {
    "Parsing failed: "@ + reason
}

/// The address of public data that a caller names in hexadecimal text. A
/// text that is no 64 digits is refused as `InvalidAddress`; the reason
/// repeats what the decoder said.
pub fn public_data_address(address_hex: String) -> (r: Result<Arc<DataAddress>, ClientError>)
    ensures
        match r {
            Ok(address) => hex_spells(address_hex@, XOR_NAME_LEN as int, address@),
            Err(ClientError::InvalidAddress { reason }) => exists|inner: Seq<char>|
                hex_refused(address_hex@, XOR_NAME_LEN as int, inner) && reason@
                    == invalid_address_reason(inner),
            Err(_) => false,
        },
{
    match name_from_hex(address_hex.as_str()) {
        Ok(name) => Ok(Arc::new(DataAddress::from_name(name))),
        Err(DataError::ParsingFailed { reason }) => {
            let text = join("Parsing failed: ", reason.as_str());
            assert(hex_refused(address_hex@, XOR_NAME_LEN as int, reason@) && text@
                == invalid_address_reason(reason@));
            Err(ClientError::InvalidAddress { reason: text })
        },
        Err(DataError::InvalidData { reason }) => Err(
            ClientError::InvalidAddress { reason: join("Invalid data: ", reason.as_str()) },
        ),
    }
}

} // verus!
