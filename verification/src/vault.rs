//! Vaults: encrypted storage for a user's own data, found by a secret key.

use crate::archive::{ArchiveAddress, PrivateArchiveDataMap};
use crate::hexcode::{encode, hex_encoding, hex_spells, lemma_encoding_is_injective};
use crate::keys::{is_secret_key, key_refused, SecretKey, SK_SIZE};
use std::sync::Arc;
use vstd::prelude::*;

verus! {

/// Why a vault operation was refused.
#[derive(Debug)]
pub enum VaultError {
    /// The key does not open a vault.
    InvalidKey { reason: String },
    /// The text is no encoding of the value asked for.
    ParsingFailed { reason: String },
}

/// The secret key that encrypts a vault and finds it on the network.
pub struct VaultSecretKey {
    key: SecretKey,
}

impl View for VaultSecretKey {
    type V = Seq<u8>;

    closed spec fn view(&self) -> Seq<u8> {
        self.key@
    }
}

impl VaultSecretKey {
    /// A vault key drawn at random.
    pub fn random() -> (key: Arc<VaultSecretKey>)
        ensures
            is_secret_key(key@),
    {
        let secret = SecretKey::random();
        Arc::new(VaultSecretKey { key: SecretKey::from_array(secret.as_array()) })
    }

    /// The vault key that 64 hexadecimal digits spell. Refused as
    /// `ParsingFailed` where the text is no hexadecimal, spells another
    /// number of bytes than 32, or spells bytes that are no secret key.
    pub fn from_hex(hex: String) -> (r: Result<Arc<VaultSecretKey>, VaultError>)
        ensures
            match r {
                Ok(key) => hex_spells(hex@, SK_SIZE as int, key@) && is_secret_key(key@),
                Err(VaultError::ParsingFailed { reason }) => key_refused(
                    hex@,
                    SK_SIZE as int,
                    |bytes: Seq<u8>| is_secret_key(bytes),
                    reason@,
                ),
                Err(_) => false,
            },
    {
        match SecretKey::parse(hex.as_str()) {
            Ok(key) => Ok(Arc::new(VaultSecretKey { key })),
            Err(fault) => Err(VaultError::ParsingFailed { reason: fault.parse_failure() }),
        }
    }

    /// The key as 64 lower-case hexadecimal digits.
    pub fn to_hex(&self) -> (text: String)
        ensures
            text@ == hex_encoding(self@),
    {
        self.key.to_hex()
    }
}

/// A public archive that a user keeps track of.
#[derive(Debug)]
pub struct FileArchiveEntry {
    /// The address of the archive, as hexadecimal text.
    pub address: String,
    /// The name that the user gave to the archive.
    pub name: String,
}

/// A private archive that a user keeps track of.
#[derive(Debug)]
pub struct PrivateFileArchiveEntry {
    /// The data map of the archive, as hexadecimal text.
    pub data_map: String,
    /// The name that the user gave to the archive.
    pub name: String,
}

/// A reference to an archive, as the contracts speak of it.
pub struct ArchiveRef {
    /// The bytes of the archive's address, or of its data map.
    pub target: Seq<u8>,
    /// The name that the user gave to the archive.
    pub name: Seq<char>,
}

/// Whether no target occurs twice in `refs`.
pub open spec fn distinct_targets(refs: Seq<ArchiveRef>) -> bool {
    forall|i: int, j: int|
        0 <= i < refs.len() && 0 <= j < refs.len() && i != j ==> (#[trigger] refs[i]).target != (
        #[trigger] refs[j]).target
}

/// Whether the reference at `i` has the target `target`.
pub open spec fn is_target_at(refs: Seq<ArchiveRef>, target: Seq<u8>, i: int) -> bool {
    0 <= i < refs.len() && refs[i].target == target
}

/// Whether some reference has the target `target`.
pub open spec fn has_target(refs: Seq<ArchiveRef>, target: Seq<u8>) -> bool {
    exists|i: int| is_target_at(refs, target, i)
}

/// The place of the reference with the target `target`, if there is one.
pub open spec fn target_index(refs: Seq<ArchiveRef>, target: Seq<u8>) -> Option<int> {
    if has_target(refs, target) {
        Some(choose|i: int| is_target_at(refs, target, i))
    } else {
        None
    }
}

/// `refs` with `reference` put in: in the place of the reference that had its
/// target, whose name it replaces, or at the end where there was none.
pub open spec fn put_ref(refs: Seq<ArchiveRef>, reference: ArchiveRef) -> Seq<ArchiveRef> {
    match target_index(refs, reference.target) {
        Some(i) => refs.update(i, reference),
        None => refs.push(reference),
    }
}

/// Among distinct targets, a target is found in one place only.
pub proof fn lemma_target_index_is(refs: Seq<ArchiveRef>, target: Seq<u8>, i: int)
    requires
        distinct_targets(refs),
        is_target_at(refs, target, i),
    ensures
        target_index(refs, target) == Some(i),
{
    let c = choose|c: int| is_target_at(refs, target, c);
    if c != i {
        assert(refs[c].target != refs[i].target);
    }
}

/// Putting a reference in keeps the targets distinct, and makes its target
/// lead to it.
pub proof fn lemma_put_ref(refs: Seq<ArchiveRef>, reference: ArchiveRef)
    requires
        distinct_targets(refs),
    ensures
        distinct_targets(put_ref(refs, reference)),
        target_index(put_ref(refs, reference), reference.target) matches Some(i) && put_ref(
            refs,
            reference,
        )[i] == reference,
        put_ref(refs, reference).len() == if has_target(refs, reference.target) {
            refs.len()
        } else {
            refs.len() + 1
        },
{
    let after = put_ref(refs, reference);
    match target_index(refs, reference.target) {
        Some(k) => {
            assert(is_target_at(refs, reference.target, k));
            assert forall|i: int, j: int|
                0 <= i < after.len() && 0 <= j < after.len() && i != j implies (
            #[trigger] after[i]).target != (#[trigger] after[j]).target by {
                assert(refs[i].target != refs[j].target);
            }
            assert(is_target_at(after, reference.target, k));
            lemma_target_index_is(after, reference.target, k);
        },
        None => {
            let k = refs.len() as int;
            assert forall|i: int, j: int|
                0 <= i < after.len() && 0 <= j < after.len() && i != j implies (
            #[trigger] after[i]).target != (#[trigger] after[j]).target by {
                if i < k && j < k {
                    assert(refs[i].target != refs[j].target);
                } else if i < k {
                    assert(!is_target_at(refs, reference.target, i));
                } else {
                    assert(!is_target_at(refs, reference.target, j));
                }
            }
            assert(is_target_at(after, reference.target, k));
            lemma_target_index_is(after, reference.target, k);
        },
    }
}

/// One archive in a user's data, as it is stored: the bytes of its address
/// or of its data map, and its name.
struct StoredRef {
    target: Vec<u8>,
    name: String,
}

/// What the contracts see of a list of stored references.
spec fn refs_view(list: Seq<StoredRef>) -> Seq<ArchiveRef> {
    Seq::new(list.len(), |i: int| ArchiveRef { target: list[i].target@, name: list[i].name@ })
}

/// Whether two byte strings are the same.
pub fn bytes_equal(a: &Vec<u8>, b: &Vec<u8>) -> (same: bool)
    ensures
        same == (a@ == b@),
{
    if a.len() != b.len() {
        return false;
    }
    let n = a.len();
    let mut i: usize = 0;
    while i < n
        invariant
            i <= n,
            n == a@.len(),
            n == b@.len(),
            forall|j: int| 0 <= j < i ==> a@[j] == b@[j],
        decreases n - i,
    {
        if a[i] != b[i] {
            return false;
        }
        i = i + 1;
    }
    assert(a@ =~= b@);
    true
}

/// The place of the reference with the target `target`, if there is one.
fn find_ref(list: &Vec<StoredRef>, target: &Vec<u8>) -> (r: Option<usize>)
    requires
        distinct_targets(refs_view(list@)),
    ensures
        match r {
            Some(i) => target_index(refs_view(list@), target@) == Some(i as int) && i
                < list@.len(),
            None => target_index(refs_view(list@), target@) is None,
        },
{
    let n = list.len();
    let mut i: usize = 0;
    while i < n
        invariant
            i <= n,
            n == list@.len(),
            distinct_targets(refs_view(list@)),
            forall|j: int| 0 <= j < i ==> !is_target_at(refs_view(list@), target@, j),
        decreases n - i,
    {
        if bytes_equal(&list[i].target, target) {
            assert(is_target_at(refs_view(list@), target@, i as int));
            proof {
                lemma_target_index_is(refs_view(list@), target@, i as int);
            }
            return Some(i);
        }
        i = i + 1;
    }
    None
}

/// A copy of the references from place `from` up to place `to`, appended to
/// `out`.
fn copy_refs(list: &Vec<StoredRef>, from: usize, to: usize, out: &mut Vec<StoredRef>)
    requires
        from <= to <= list@.len(),
    ensures
        final(out)@.len() == old(out)@.len() + (to - from),
        forall|k: int| 0 <= k < old(out)@.len() ==> final(out)@[k] == old(out)@[k],
        forall|k: int|
            old(out)@.len() <= k < final(out)@.len() ==> (#[trigger] final(out)@[k]).target@
                == list@[from + (k - old(out)@.len())].target@ && final(out)@[k].name@
                == list@[from + (k - old(out)@.len())].name@,
{
    let mut i: usize = from;
    while i < to
        invariant
            from <= i <= to,
            to <= list@.len(),
            out@.len() == old(out)@.len() + (i - from),
            forall|k: int| 0 <= k < old(out)@.len() ==> out@[k] == old(out)@[k],
            forall|k: int|
                old(out)@.len() <= k < out@.len() ==> (#[trigger] out@[k]).target@
                    == list@[from + (k - old(out)@.len())].target@ && out@[k].name@
                    == list@[from + (k - old(out)@.len())].name@,
        decreases to - i,
    {
        let entry = &list[i];
        out.push(StoredRef { target: entry.target.clone(), name: entry.name.clone() });
        i = i + 1;
    }
}

/// The list with the reference put in: in the place of the reference that
/// had its target, or at the end where there was none.
fn with_ref(list: &Vec<StoredRef>, target: Vec<u8>, name: String) -> (out: Vec<StoredRef>)
    requires
        distinct_targets(refs_view(list@)),
    ensures
        refs_view(out@) == put_ref(refs_view(list@), ArchiveRef { target: target@, name: name@ }),
        distinct_targets(refs_view(out@)),
{
    let ghost reference = ArchiveRef { target: target@, name: name@ };
    let n = list.len();
    let found = find_ref(list, &target);
    let mut out: Vec<StoredRef> = Vec::new();
    match found {
        Some(i) => {
            copy_refs(list, 0, i, &mut out);
            out.push(StoredRef { target, name });
            copy_refs(list, i + 1, n, &mut out);
        },
        None => {
            copy_refs(list, 0, n, &mut out);
            out.push(StoredRef { target, name });
        },
    }
    proof {
        lemma_put_ref(refs_view(list@), reference);
        let built = refs_view(out@);
        let wanted = put_ref(refs_view(list@), reference);
        assert(built.len() == wanted.len());
        assert forall|k: int| 0 <= k < built.len() implies built[k] == wanted[k] by {
            assert(built[k].target == out@[k].target@);
        }
        assert(built =~= wanted);
    }
    out
}

/// What a user keeps in a vault: the archives that hold the user's files,
/// public and private, each with a name. No public archive's address occurs
/// twice, and no private archive's data map; the archives keep the order in
/// which they were first added.
pub struct UserData {
    file_archives: Vec<StoredRef>,
    private_file_archives: Vec<StoredRef>,
}

impl UserData {
    /// The public archives, in order.
    pub closed spec fn public_refs(&self) -> Seq<ArchiveRef> {
        refs_view(self.file_archives@)
    }

    /// The private archives, in order.
    pub closed spec fn private_refs(&self) -> Seq<ArchiveRef> {
        refs_view(self.private_file_archives@)
    }

    /// No address occurs twice among the public archives, and no data map
    /// among the private ones.
    #[verifier::type_invariant]
    pub open spec fn well_formed(&self) -> bool {
        &&& distinct_targets(self.public_refs())
        &&& distinct_targets(self.private_refs())
    }

    /// User data without any archive.
    pub fn new() -> (data: Arc<UserData>)
        ensures
            data.public_refs() == Seq::<ArchiveRef>::empty(),
            data.private_refs() == Seq::<ArchiveRef>::empty(),
    {
        let file_archives: Vec<StoredRef> = Vec::new();
        let private_file_archives: Vec<StoredRef> = Vec::new();
        assert(refs_view(file_archives@) =~= Seq::<ArchiveRef>::empty());
        assert(refs_view(private_file_archives@) =~= Seq::<ArchiveRef>::empty());
        Arc::new(UserData { file_archives, private_file_archives })
    }

    /// A copy of a list of references.
    fn copy_list(list: &Vec<StoredRef>) -> (out: Vec<StoredRef>)
        ensures
            refs_view(out@) == refs_view(list@),
    {
        let mut out: Vec<StoredRef> = Vec::new();
        copy_refs(list, 0, list.len(), &mut out);
        assert(refs_view(out@) =~= refs_view(list@));
        out
    }

    /// The user data with the public archive at `address` under the name
    /// `name`: where the address is there already, the name replaces the one
    /// it had; otherwise the archive is put last.
    pub fn with_file_archive(&self, address: Arc<ArchiveAddress>, name: String) -> (data: Arc<
        UserData,
    >)
        ensures
            data.public_refs() == put_ref(
                self.public_refs(),
                ArchiveRef { target: address@, name: name@ },
            ),
            data.private_refs() == self.private_refs(),
            distinct_targets(data.public_refs()),
            distinct_targets(data.private_refs()),
    {
        proof {
            use_type_invariant(self);
        }
        let file_archives = with_ref(&self.file_archives, address.name().to_vec(), name);
        let private_file_archives = UserData::copy_list(&self.private_file_archives);
        Arc::new(UserData { file_archives, private_file_archives })
    }

    /// The user data with the private archive of the data map `data_map`
    /// under the name `name`: where the data map is there already, the name
    /// replaces the one it had; otherwise the archive is put last.
    pub fn with_private_file_archive(
        &self,
        data_map: Arc<PrivateArchiveDataMap>,
        name: String,
    ) -> (data: Arc<UserData>)
        ensures
            data.public_refs() == self.public_refs(),
            data.private_refs() == put_ref(
                self.private_refs(),
                ArchiveRef { target: data_map@, name: name@ },
            ),
            distinct_targets(data.public_refs()),
            distinct_targets(data.private_refs()),
    {
        proof {
            use_type_invariant(self);
        }
        let private_file_archives = with_ref(
            &self.private_file_archives,
            data_map.to_bytes(),
            name,
        );
        let file_archives = UserData::copy_list(&self.file_archives);
        Arc::new(UserData { file_archives, private_file_archives })
    }

    /// The public archives: for each, its address as hexadecimal text and
    /// its name, in order. No address comes twice.
    pub fn file_archives(&self) -> (entries: Vec<FileArchiveEntry>)
        ensures
            entries@.len() == self.public_refs().len(),
            forall|i: int|
                0 <= i < entries@.len() ==> (#[trigger] entries@[i]).address@ == hex_encoding(
                    self.public_refs()[i].target,
                ) && entries@[i].name@ == self.public_refs()[i].name,
            distinct_targets(self.public_refs()),
            forall|i: int, j: int|
                0 <= i < entries@.len() && 0 <= j < entries@.len() && i != j ==> (
                #[trigger] entries@[i]).address@ != (#[trigger] entries@[j]).address@,
    {
        proof {
            use_type_invariant(self);
        }
        let mut entries: Vec<FileArchiveEntry> = Vec::new();
        let mut i: usize = 0;
        while i < self.file_archives.len()
            invariant
                i <= self.file_archives@.len(),
                entries@.len() == i,
                forall|j: int|
                    0 <= j < i ==> (#[trigger] entries@[j]).address@ == hex_encoding(
                        self.file_archives@[j].target@,
                    ) && entries@[j].name@ == self.file_archives@[j].name@,
            decreases self.file_archives@.len() - i,
        {
            let entry = &self.file_archives[i];
            entries.push(
                FileArchiveEntry { address: encode(&entry.target), name: entry.name.clone() },
            );
            i = i + 1;
        }
        proof {
            let refs = self.public_refs();
            assert forall|i: int, j: int|
                0 <= i < entries@.len() && 0 <= j < entries@.len() && i != j implies (
            #[trigger] entries@[i]).address@ != (#[trigger] entries@[j]).address@ by {
                assert(refs[i].target != refs[j].target);
                if entries@[i].address@ == entries@[j].address@ {
                    lemma_encoding_is_injective(refs[i].target, refs[j].target);
                }
            }
        }
        entries
    }

    /// The private archives: for each, its data map as hexadecimal text and
    /// its name, in order. No data map comes twice.
    pub fn private_file_archives(&self) -> (entries: Vec<PrivateFileArchiveEntry>)
        ensures
            entries@.len() == self.private_refs().len(),
            forall|i: int|
                0 <= i < entries@.len() ==> (#[trigger] entries@[i]).data_map@ == hex_encoding(
                    self.private_refs()[i].target,
                ) && entries@[i].name@ == self.private_refs()[i].name,
            distinct_targets(self.private_refs()),
            forall|i: int, j: int|
                0 <= i < entries@.len() && 0 <= j < entries@.len() && i != j ==> (
                #[trigger] entries@[i]).data_map@ != (#[trigger] entries@[j]).data_map@,
    {
        proof {
            use_type_invariant(self);
        }
        let mut entries: Vec<PrivateFileArchiveEntry> = Vec::new();
        let mut i: usize = 0;
        while i < self.private_file_archives.len()
            invariant
                i <= self.private_file_archives@.len(),
                entries@.len() == i,
                forall|j: int|
                    0 <= j < i ==> (#[trigger] entries@[j]).data_map@ == hex_encoding(
                        self.private_file_archives@[j].target@,
                    ) && entries@[j].name@ == self.private_file_archives@[j].name@,
            decreases self.private_file_archives@.len() - i,
        {
            let entry = &self.private_file_archives[i];
            entries.push(
                PrivateFileArchiveEntry {
                    data_map: encode(&entry.target),
                    name: entry.name.clone(),
                },
            );
            i = i + 1;
        }
        proof {
            let refs = self.private_refs();
            assert forall|i: int, j: int|
                0 <= i < entries@.len() && 0 <= j < entries@.len() && i != j implies (
            #[trigger] entries@[i]).data_map@ != (#[trigger] entries@[j]).data_map@ by {
                assert(refs[i].target != refs[j].target);
                if entries@[i].data_map@ == entries@[j].data_map@ {
                    lemma_encoding_is_injective(refs[i].target, refs[j].target);
                }
            }
        }
        entries
    }
}

/// What a vault gave back.
#[derive(Debug)]
pub struct VaultGetResult {
    /// The decrypted content of the vault.
    pub data: Vec<u8>,
    /// What kind of content it is; the meaning is up to the application.
    pub content_type: u64,
}

} // verus!
