//! Graph entries: immutable records that name their parents and descendants
//! by key, each kept at the address of its owner's key.

use crate::fixed::{array_exact, vec_of};
use crate::hexcode::{hex_encoding, hex_spells};
use crate::key_derivation::Signature;
use crate::keys::{is_public_key, key_refused_plainly, PublicKey, PK_SIZE};
use crate::text::{decimal_text, with_number};
use std::sync::Arc;
use vstd::prelude::*;

verus! {

/// The number of bytes of a graph entry's content.
pub const GRAPH_CONTENT_SIZE: usize = 32;

/// Why a graph entry was refused.
#[derive(Debug)]
pub enum GraphEntryError {
    /// The content of the entry or of a descendant has the wrong size.
    InvalidContent { reason: String },
    /// The text is no encoding of the value asked for.
    ParsingFailed { reason: String },
}

/// The address of a graph entry: the public key of its owner.
#[derive(Clone, Copy, Debug)]
pub struct GraphEntryAddress {
    owner: PublicKey,
}

impl View for GraphEntryAddress {
    type V = Seq<u8>;

    closed spec fn view(&self) -> Seq<u8> {
        self.owner@
    }
}

impl GraphEntryAddress {
    /// The address that belongs to the owner with the key `public_key`.
    pub fn new(public_key: Arc<PublicKey>) -> (address: Arc<GraphEntryAddress>)
        ensures
            address@ == public_key@,
    {
        Arc::new(GraphEntryAddress { owner: *public_key })
    }

    /// The address of the owner `owner`.
    pub fn of_owner(owner: PublicKey) -> (address: GraphEntryAddress)
        ensures
            address@ == owner@,
    {
        GraphEntryAddress { owner }
    }

    /// The address that 96 hexadecimal digits spell. Refused as
    /// `ParsingFailed` where the text is no hexadecimal, spells another
    /// number of bytes than 48, or spells bytes that are no public key.
    pub fn from_hex(hex: String) -> (r: Result<Arc<GraphEntryAddress>, GraphEntryError>)
        ensures
            match r {
                Ok(address) => hex_spells(hex@, PK_SIZE as int, address@) && is_public_key(
                    address@,
                ),
                Err(GraphEntryError::ParsingFailed { reason }) => key_refused_plainly(
                    hex@,
                    PK_SIZE as int,
                    |bytes: Seq<u8>| is_public_key(bytes),
                    reason@,
                ),
                Err(_) => false,
            },
    {
        match PublicKey::parse(hex.as_str()) {
            Ok(owner) => Ok(Arc::new(GraphEntryAddress { owner })),
            Err(fault) => Err(GraphEntryError::ParsingFailed { reason: fault.describe() }),
        }
    }

    /// The public key of the owner.
    pub fn owner(&self) -> (key: Arc<PublicKey>)
        ensures
            key@ == self@,
    {
        Arc::new(self.owner)
    }

    /// The address as 96 lower-case hexadecimal digits.
    pub fn to_hex(&self) -> (text: String)
        ensures
            text@ == hex_encoding(self@),
    {
        self.owner.to_hex()
    }
}


/// A parent or descendant of a graph entry: a key, and 32 bytes of content.
pub struct GraphDescendant {
    /// The key of the entry referred to.
    pub public_key: Arc<PublicKey>,
    /// The content that goes with the reference: 32 bytes.
    pub content: Vec<u8>,
}

/// A reference to another entry, as the contracts speak of it.
pub struct LinkView {
    /// The key of the entry referred to.
    pub public_key: Seq<u8>,
    /// The content that goes with the reference.
    pub content: Seq<u8>,
}

/// What the contracts see of a descendant.
pub open spec fn descendant_view(descendant: GraphDescendant) -> LinkView {
    LinkView { public_key: descendant.public_key@, content: descendant.content@ }
}

/// The parts of a graph entry, as the contracts speak of them.
pub struct GraphEntryView {
    /// The public key of the owner.
    pub owner: Seq<u8>,
    /// The keys of the parents, in order.
    pub parents: Seq<Seq<u8>>,
    /// The content: 32 bytes.
    pub content: Seq<u8>,
    /// The descendants, in order.
    pub descendants: Seq<LinkView>,
    /// The owner's signature over the other parts.
    pub signature: Seq<u8>,
}

/// The reason given for a content of `n` bytes where 32 are needed.
pub open spec fn content_length_reason(n: nat) -> Seq<char> {
    "Content must be exactly 32 bytes, got "@ + decimal_text(n)
}

/// The reason given for a descendant whose content has `n` bytes where 32 are
/// needed.
pub open spec fn descendant_length_reason(n: nat) -> Seq<char> {
    "Descendant content must be exactly 32 bytes, got "@ + decimal_text(n)
}

/// Whether the descendant at `i` is the first whose content has not 32 bytes.
pub open spec fn is_first_bad_descendant(descendants: Seq<GraphDescendant>, i: int) -> bool {
    &&& 0 <= i < descendants.len()
    &&& descendants[i].content@.len() != GRAPH_CONTENT_SIZE
    &&& forall|j: int| 0 <= j < i ==> (#[trigger] descendants[j]).content@.len() == GRAPH_CONTENT_SIZE
}

/// Whether the content and every descendant's content have 32 bytes.
pub open spec fn sizes_right(content: Seq<u8>, descendants: Seq<GraphDescendant>) -> bool {
    &&& content.len() == GRAPH_CONTENT_SIZE
    &&& forall|j: int|
        0 <= j < descendants.len() ==> (#[trigger] descendants[j]).content@.len()
            == GRAPH_CONTENT_SIZE
}

/// Whether `reason` is what is said of the first wrong size among the content
/// and the descendants' contents: the entry's own content is looked at first,
/// then the descendants in order.
pub open spec fn size_refused(
    content: Seq<u8>,
    descendants: Seq<GraphDescendant>,
    reason: Seq<char>,
) -> bool {
    if content.len() != GRAPH_CONTENT_SIZE {
        reason == content_length_reason(content.len())
    } else {
        exists|i: int|
            is_first_bad_descendant(descendants, i) && reason == descendant_length_reason(
                descendants[i].content@.len(),
            )
    }
}

/// One reference of a graph entry, as it is stored.
struct Link {
    public_key: PublicKey,
    content: [u8; 32],
}

/// A graph entry as the network keeps it.
pub struct GraphEntry {
    owner: PublicKey,
    parents: Vec<PublicKey>,
    content: [u8; 32],
    descendants: Vec<Link>,
    signature: Signature,
}

impl View for GraphEntry {
    type V = GraphEntryView;

    closed spec fn view(&self) -> GraphEntryView {
        GraphEntryView {
            owner: self.owner@,
            parents: Seq::new(self.parents@.len(), |i: int| self.parents@[i]@),
            content: self.content@,
            descendants: Seq::new(
                self.descendants@.len(),
                |i: int|
                    LinkView {
                        public_key: self.descendants@[i].public_key@,
                        content: self.descendants@[i].content@,
                    },
            ),
            signature: self.signature@,
        }
    }
}

impl GraphEntry {
    /// Looks at the sizes that a graph entry must have: the content, and the
    /// content of every descendant, must be 32 bytes. The first that is not
    /// is refused as `InvalidContent`, with the number of bytes that came;
    /// the entry's own content is looked at first, then the descendants in
    /// order.
    pub fn check_sizes(content: &Vec<u8>, descendants: &Vec<GraphDescendant>) -> (r: Result<
        (),
        GraphEntryError,
    >)
        ensures
            match r {
                Ok(()) => sizes_right(content@, descendants@),
                Err(GraphEntryError::InvalidContent { reason }) => !sizes_right(
                    content@,
                    descendants@,
                ) && size_refused(content@, descendants@, reason@),
                Err(_) => false,
            },
    {
        if content.len() != GRAPH_CONTENT_SIZE {
            return Err(
                GraphEntryError::InvalidContent {
                    reason: with_number("Content must be exactly 32 bytes, got ", content.len()),
                },
            );
        }
        let mut i: usize = 0;
        while i < descendants.len()
            invariant
                i <= descendants@.len(),
                content@.len() == GRAPH_CONTENT_SIZE,
                forall|j: int|
                    0 <= j < i ==> (#[trigger] descendants@[j]).content@.len()
                        == GRAPH_CONTENT_SIZE,
            decreases descendants@.len() - i,
        {
            let n = descendants[i].content.len();
            if n != GRAPH_CONTENT_SIZE {
                assert(is_first_bad_descendant(descendants@, i as int));
                return Err(
                    GraphEntryError::InvalidContent {
                        reason: with_number(
                            "Descendant content must be exactly 32 bytes, got ",
                            n,
                        ),
                    },
                );
            }
            i = i + 1;
        }
        Ok(())
    }

    /// The graph entry with the given parts. The sizes are checked as by
    /// `check_sizes`. Whether the signature is the owner's is not looked
    /// into.
    pub fn new(
        owner: Arc<PublicKey>,
        parents: Vec<Arc<PublicKey>>,
        content: Vec<u8>,
        descendants: Vec<GraphDescendant>,
        signature: Arc<Signature>,
    ) -> (r: Result<Arc<GraphEntry>, GraphEntryError>)
        ensures
            match r {
                Ok(entry) => sizes_right(content@, descendants@) && entry@ == (GraphEntryView {
                    owner: owner@,
                    parents: Seq::new(parents@.len(), |i: int| parents@[i]@),
                    content: content@,
                    descendants: Seq::new(
                        descendants@.len(),
                        |i: int| descendant_view(descendants@[i]),
                    ),
                    signature: signature@,
                }),
                Err(GraphEntryError::InvalidContent { reason }) => !sizes_right(
                    content@,
                    descendants@,
                ) && size_refused(content@, descendants@, reason@),
                Err(_) => false,
            },
    {
        match GraphEntry::check_sizes(&content, &descendants) {
            Ok(()) => {},
            Err(e) => {
                return Err(e);
            },
        }
        let content_array = array_exact::<32>(&content);
        let mut links: Vec<Link> = Vec::new();
        let mut i: usize = 0;
        while i < descendants.len()
            invariant
                i <= descendants@.len(),
                sizes_right(content@, descendants@),
                links@.len() == i,
                forall|j: int|
                    0 <= j < i ==> (#[trigger] links@[j]).public_key@
                        == descendants@[j].public_key@ && links@[j].content@
                        == descendants@[j].content@,
            decreases descendants@.len() - i,
        {
            let descendant = &descendants[i];
            links.push(
                Link {
                    public_key: *descendant.public_key,
                    content: array_exact::<32>(&descendant.content),
                },
            );
            i = i + 1;
        }
        let mut parent_keys: Vec<PublicKey> = Vec::new();
        let mut k: usize = 0;
        while k < parents.len()
            invariant
                k <= parents@.len(),
                parent_keys@.len() == k,
                forall|j: int| 0 <= j < k ==> (#[trigger] parent_keys@[j])@ == parents@[j]@,
            decreases parents@.len() - k,
        {
            parent_keys.push(*parents[k]);
            k = k + 1;
        }
        let entry = GraphEntry {
            owner: *owner,
            parents: parent_keys,
            content: content_array,
            descendants: links,
            signature: *signature,
        };
        proof {
            assert(entry@.parents =~= Seq::new(parents@.len(), |i: int| parents@[i]@));
            assert(entry@.descendants =~= Seq::new(
                descendants@.len(),
                |i: int| descendant_view(descendants@[i]),
            ));
        }
        Ok(Arc::new(entry))
    }

    /// The address at which the entry is kept: that of its owner.
    pub fn address(&self) -> (address: Arc<GraphEntryAddress>)
        ensures
            address@ == self@.owner,
    {
        Arc::new(GraphEntryAddress::of_owner(self.owner))
    }

    /// The 32 bytes of content.
    pub fn content(&self) -> (bytes: Vec<u8>)
        ensures
            bytes@ == self@.content,
            bytes@.len() == GRAPH_CONTENT_SIZE,
    {
        vec_of(&self.content)
    }

    /// The keys of the parents, in order.
    pub fn parents(&self) -> (keys: Vec<Arc<PublicKey>>)
        ensures
            keys@.len() == self@.parents.len(),
            forall|i: int| 0 <= i < keys@.len() ==> (#[trigger] keys@[i])@ == self@.parents[i],
    {
        let mut keys: Vec<Arc<PublicKey>> = Vec::new();
        let mut i: usize = 0;
        while i < self.parents.len()
            invariant
                i <= self.parents@.len(),
                keys@.len() == i,
                forall|j: int| 0 <= j < i ==> (#[trigger] keys@[j])@ == self.parents@[j]@,
            decreases self.parents@.len() - i,
        {
            keys.push(Arc::new(self.parents[i]));
            i = i + 1;
        }
        keys
    }

    /// The descendants, in order.
    pub fn descendants(&self) -> (links: Vec<GraphDescendant>)
        ensures
            links@.len() == self@.descendants.len(),
            forall|i: int|
                0 <= i < links@.len() ==> descendant_view(#[trigger] links@[i])
                    == self@.descendants[i],
    {
        let mut links: Vec<GraphDescendant> = Vec::new();
        let mut i: usize = 0;
        while i < self.descendants.len()
            invariant
                i <= self.descendants@.len(),
                links@.len() == i,
                forall|j: int|
                    0 <= j < i ==> descendant_view(#[trigger] links@[j]) == (LinkView {
                        public_key: self.descendants@[j].public_key@,
                        content: self.descendants@[j].content@,
                    }),
            decreases self.descendants@.len() - i,
        {
            let link = &self.descendants[i];
            links.push(
                GraphDescendant {
                    public_key: Arc::new(link.public_key),
                    content: vec_of(&link.content),
                },
            );
            i = i + 1;
        }
        links
    }

    /// The owner's signature.
    pub fn signature(&self) -> (signature: Arc<Signature>)
        ensures
            signature@ == self@.signature,
    {
        Arc::new(self.signature)
    }
}

} // verus!
