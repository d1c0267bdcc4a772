//! Pointers: small mutable records that lead to other data, each kept at the
//! address of its owner's key.

use crate::data::ChunkAddress;
use crate::graph_entry::GraphEntryAddress;
use crate::hexcode::{hex_encoding, hex_spells};
use crate::key_derivation::Signature;
use crate::keys::{is_public_key, key_refused, PublicKey, PK_SIZE};
use crate::scratchpad::ScratchpadAddress;
use std::sync::Arc;
use vstd::prelude::*;

verus! {

/// Why a pointer operation was refused.
#[derive(Debug)]
pub enum PointerError {
    /// The parts do not make a pointer.
    InvalidPointer { reason: String },
    /// The text is no encoding of the value asked for.
    ParsingFailed { reason: String },
}

/// The address of a pointer: the public key of its owner.
#[derive(Clone, Copy, Debug)]
pub struct PointerAddress {
    owner: PublicKey,
}

impl View for PointerAddress {
    type V = Seq<u8>;

    closed spec fn view(&self) -> Seq<u8> {
        self.owner@
    }
}

impl PointerAddress {
    /// The address that belongs to the owner with the key `public_key`.
    pub fn new(public_key: Arc<PublicKey>) -> (address: Arc<PointerAddress>)
        ensures
            address@ == public_key@,
    {
        Arc::new(PointerAddress { owner: *public_key })
    }

    /// The address of the owner `owner`.
    pub fn of_owner(owner: PublicKey) -> (address: PointerAddress)
        ensures
            address@ == owner@,
    {
        PointerAddress { owner }
    }

    /// The address that 96 hexadecimal digits spell. Refused as
    /// `ParsingFailed` where the text is no hexadecimal, spells another
    /// number of bytes than 48, or spells bytes that are no public key.
    pub fn from_hex(hex: String) -> (r: Result<Arc<PointerAddress>, PointerError>)
        ensures
            match r {
                Ok(address) => hex_spells(hex@, PK_SIZE as int, address@) && is_public_key(
                    address@,
                ),
                Err(PointerError::ParsingFailed { reason }) => key_refused(
                    hex@,
                    PK_SIZE as int,
                    |bytes: Seq<u8>| is_public_key(bytes),
                    reason@,
                ),
                Err(_) => false,
            },
    {
        match PublicKey::parse(hex.as_str()) {
            Ok(owner) => Ok(Arc::new(PointerAddress { owner })),
            Err(fault) => Err(PointerError::ParsingFailed { reason: fault.parse_failure() }),
        }
    }

    /// The public key of the owner.
    pub fn owner(&self) -> (key: Arc<PublicKey>)
        ensures
            key@ == self@,
    {
        Arc::new(self.owner)
    }

    /// The address as 96 lower-case hexadecimal digits.
    pub fn to_hex(&self) -> (text: String)
        ensures
            text@ == hex_encoding(self@),
    {
        self.owner.to_hex()
    }
}

/// What a pointer can lead to.
#[derive(Clone, Copy, Debug)]
pub enum Target {
    /// A chunk.
    Chunk(ChunkAddress),
    /// Another pointer.
    Pointer(PointerAddress),
    /// A graph entry.
    GraphEntry(GraphEntryAddress),
    /// A scratchpad.
    Scratchpad(ScratchpadAddress),
}

/// The bytes of the address that `target` holds: 32 for a chunk, 48 for
/// anything kept at an owner's key.
pub open spec fn target_bytes(target: Target) -> Seq<u8> {
    match target {
        Target::Chunk(address) => address@,
        Target::Pointer(address) => address@,
        Target::GraphEntry(address) => address@,
        Target::Scratchpad(address) => address@,
    }
}

/// The target of a pointer.
#[derive(Clone, Copy, Debug)]
pub struct PointerTarget {
    target: Target,
}

impl View for PointerTarget {
    type V = Target;

    closed spec fn view(&self) -> Target {
        self.target
    }
}

impl PointerTarget {
    /// The target that is the chunk at `addr`.
    pub fn chunk(addr: Arc<ChunkAddress>) -> (target: Arc<PointerTarget>)
        ensures
            target@ == Target::Chunk(*addr),
    {
        Arc::new(PointerTarget { target: Target::Chunk(*addr) })
    }

    /// The target that is the pointer at `addr`.
    pub fn pointer(addr: Arc<PointerAddress>) -> (target: Arc<PointerTarget>)
        ensures
            target@ == Target::Pointer(*addr),
    {
        Arc::new(PointerTarget { target: Target::Pointer(*addr) })
    }

    /// The target that is the graph entry at `addr`.
    pub fn graph_entry(addr: Arc<GraphEntryAddress>) -> (target: Arc<PointerTarget>)
        ensures
            target@ == Target::GraphEntry(*addr),
    {
        Arc::new(PointerTarget { target: Target::GraphEntry(*addr) })
    }

    /// The target that is the scratchpad at `addr`.
    pub fn scratchpad(addr: Arc<ScratchpadAddress>) -> (target: Arc<PointerTarget>)
        ensures
            target@ == Target::Scratchpad(*addr),
    {
        Arc::new(PointerTarget { target: Target::Scratchpad(*addr) })
    }

    /// What the target is.
    pub fn kind(&self) -> (target: Target)
        ensures
            target == self@,
    {
        self.target
    }

    /// The address that the target holds, as lower-case hexadecimal digits.
    pub fn to_hex(&self) -> (text: String)
        ensures
            text@ == hex_encoding(target_bytes(self@)),
    {
        match self.target {
            Target::Chunk(address) => address.to_hex(),
            Target::Pointer(address) => address.to_hex(),
            Target::GraphEntry(address) => address.to_hex(),
            Target::Scratchpad(address) => address.to_hex(),
        }
    }
}

/// The parts of a pointer, as the contracts speak of them.
pub struct PointerView {
    /// The public key of the owner.
    pub owner: Seq<u8>,
    /// The version of the pointer; a higher one is more recent.
    pub counter: u64,
    /// What the pointer leads to.
    pub target: Target,
    /// The owner's signature over the other parts.
    pub signature: Seq<u8>,
}

/// A pointer as the network keeps it: owner, version, target, and the owner's
/// signature over the three.
#[derive(Clone, Copy, Debug)]
pub struct NetworkPointer {
    owner: PublicKey,
    counter: u64,
    target: PointerTarget,
    signature: Signature,
}

impl View for NetworkPointer {
    type V = PointerView;

    closed spec fn view(&self) -> PointerView {
        PointerView {
            owner: self.owner@,
            counter: self.counter,
            target: self.target@,
            signature: self.signature@,
        }
    }
}

impl NetworkPointer {
    /// The pointer with the given parts. Whether the signature is the
    /// owner's is not looked into.
    pub fn from_parts(
        owner: Arc<PublicKey>,
        counter: u64,
        target: Arc<PointerTarget>,
        signature: Arc<Signature>,
    ) -> (pointer: Arc<NetworkPointer>)
        ensures
            pointer@ == (PointerView {
                owner: owner@,
                counter,
                target: target@,
                signature: signature@,
            }),
    {
        Arc::new(
            NetworkPointer { owner: *owner, counter, target: *target, signature: *signature },
        )
    }

    /// The address at which the pointer is kept: that of its owner.
    pub fn address(&self) -> (address: Arc<PointerAddress>)
        ensures
            address@ == self@.owner,
    {
        Arc::new(PointerAddress { owner: self.owner })
    }

    /// What the pointer leads to.
    pub fn target(&self) -> (target: Arc<PointerTarget>)
        ensures
            target@ == self@.target,
    {
        Arc::new(self.target)
    }

    /// The version of the pointer.
    pub fn counter(&self) -> (counter: u64)
        ensures
            counter == self@.counter,
    {
        self.counter
    }

    /// The owner's signature.
    pub fn signature(&self) -> (signature: Arc<Signature>)
        ensures
            signature@ == self@.signature,
    {
        Arc::new(self.signature)
    }
}

} // verus!
