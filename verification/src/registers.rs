//! Registers: mutable values of 32 bytes with a history, each kept at the
//! address of its owner's key.

use crate::hexcode::{hex_encoding, hex_spells};
use crate::keys::{is_public_key, key_refused, PublicKey, PK_SIZE};
use crate::text::{decimal_text, with_number};
use std::sync::Arc;
use vstd::prelude::*;

verus! {

/// The number of bytes of a register's value.
pub const REGISTER_VALUE_SIZE: usize = 32;

/// Why a register operation was refused.
#[derive(Debug)]
pub enum RegisterError {
    /// The value or the parts do not make a register.
    InvalidRegister { reason: String },
    /// The text is no encoding of the value asked for.
    ParsingFailed { reason: String },
}

/// The address of a register: the public key of its owner.
#[derive(Clone, Copy, Debug)]
pub struct RegisterAddress {
    owner: PublicKey,
}

impl View for RegisterAddress {
    type V = Seq<u8>;

    closed spec fn view(&self) -> Seq<u8> {
        self.owner@
    }
}

impl RegisterAddress {
    /// The address that belongs to the owner with the key `public_key`.
    pub fn new(public_key: Arc<PublicKey>) -> (address: Arc<RegisterAddress>)
        ensures
            address@ == public_key@,
    {
        Arc::new(RegisterAddress { owner: *public_key })
    }

    /// The address of the owner `owner`.
    pub fn of_owner(owner: PublicKey) -> (address: RegisterAddress)
        ensures
            address@ == owner@,
    {
        RegisterAddress { owner }
    }

    /// The address that 96 hexadecimal digits spell. Refused as
    /// `ParsingFailed` where the text is no hexadecimal, spells another
    /// number of bytes than 48, or spells bytes that are no public key.
    pub fn from_hex(hex: String) -> (r: Result<Arc<RegisterAddress>, RegisterError>)
        ensures
            match r {
                Ok(address) => hex_spells(hex@, PK_SIZE as int, address@) && is_public_key(
                    address@,
                ),
                Err(RegisterError::ParsingFailed { reason }) => key_refused(
                    hex@,
                    PK_SIZE as int,
                    |bytes: Seq<u8>| is_public_key(bytes),
                    reason@,
                ),
                Err(_) => false,
            },
    {
        match PublicKey::parse(hex.as_str()) {
            Ok(owner) => Ok(Arc::new(RegisterAddress { owner })),
            Err(fault) => Err(RegisterError::ParsingFailed { reason: fault.parse_failure() }),
        }
    }

    /// The public key of the owner.
    pub fn owner(&self) -> (key: Arc<PublicKey>)
        ensures
            key@ == self@,
    {
        Arc::new(self.owner)
    }

    /// The address as 96 lower-case hexadecimal digits.
    pub fn to_hex(&self) -> (text: String)
        ensures
            text@ == hex_encoding(self@),
    {
        self.owner.to_hex()
    }
}

/// `bytes` filled up with zero bytes to the size of a register's value.
pub open spec fn padded_value(bytes: Seq<u8>) -> Seq<u8> {
    Seq::new(
        REGISTER_VALUE_SIZE as nat,
        |i: int|
            if i < bytes.len() {
                bytes[i]
            } else {
                0u8
            },
    )
}

/// The reason given for a value of `n` bytes where at most 32 fit.
pub open spec fn value_length_reason(n: nat) -> Seq<char> {
    "Invalid register value: at most 32 bytes fit, got "@ + decimal_text(n)
}

/// The value of a register made of `bytes`: the bytes themselves, followed by
/// zero bytes up to 32. More than 32 bytes are refused as `InvalidRegister`,
/// with the number that came.
pub fn register_value_from_bytes(bytes: Vec<u8>) -> (r: Result<Vec<u8>, RegisterError>)
    ensures
        match r {
            Ok(value) => bytes@.len() <= REGISTER_VALUE_SIZE && value@ == padded_value(bytes@),
            Err(RegisterError::InvalidRegister { reason }) => bytes@.len() > REGISTER_VALUE_SIZE
                && reason@ == value_length_reason(bytes@.len()),
            Err(_) => false,
        },
{
    let n = bytes.len();
    if n > REGISTER_VALUE_SIZE {
        return Err(
            RegisterError::InvalidRegister {
                reason: with_number("Invalid register value: at most 32 bytes fit, got ", n),
            },
        );
    }
    let mut value: Vec<u8> = Vec::new();
    let mut i: usize = 0;
    while i < REGISTER_VALUE_SIZE
        invariant
            i <= REGISTER_VALUE_SIZE,
            n == bytes@.len(),
            n <= REGISTER_VALUE_SIZE,
            value@.len() == i,
            forall|j: int| 0 <= j < i ==> value@[j] == padded_value(bytes@)[j],
        decreases REGISTER_VALUE_SIZE - i,
    {
        if i < n {
            value.push(bytes[i]);
        } else {
            value.push(0u8);
        }
        i = i + 1;
    }
    assert(value@ =~= padded_value(bytes@));
    Ok(value)
}

} // verus!
