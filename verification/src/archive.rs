//! Archives: collections of files with their metadata, public or private.
//!
//! An archive is a value: adding or renaming a file gives a new archive and
//! leaves the old one as it was.

use crate::data::{DataAddress, DataMapChunk};
use crate::filetable::{
    distinct_paths, has_path, put, renamed, ArchivedFile, FileTable, Metadata,
};
use crate::hexcode::{
    decode, hex_encoding, hex_refused, hex_refused_any, hex_spells, hex_spells_any,
};
use crate::text::join;
use crate::xorname::{XorName, XOR_NAME_LEN};
use std::sync::Arc;
use vstd::prelude::*;

verus! {

/// Why an archive operation was refused.
#[derive(Debug)]
pub enum ArchiveError {
    /// The archive does not allow the operation.
    InvalidArchive { reason: String },
    /// The text is no encoding of the value asked for.
    ParsingFailed { reason: String },
    /// The archive has no file at the path.
    FileNotFound { path: String },
}

/// The address of a public archive: the address of the data that holds it.
#[derive(Clone, Copy, Debug)]
pub struct ArchiveAddress {
    name: XorName,
}

impl View for ArchiveAddress {
    type V = Seq<u8>;

    closed spec fn view(&self) -> Seq<u8> {
        self.name@
    }
}

impl ArchiveAddress {
    /// The address with the name `name`.
    pub fn from_name(name: XorName) -> (address: ArchiveAddress)
        ensures
            address@ == name@,
    {
        ArchiveAddress { name }
    }

    /// The name that is the address.
    pub fn name(&self) -> (name: XorName)
        ensures
            name@ == self@,
    {
        self.name
    }

    /// The address that 64 hexadecimal digits spell; any other text is
    /// refused as `ParsingFailed`, with the reason.
    pub fn from_hex(hex: String) -> (r: Result<Arc<ArchiveAddress>, ArchiveError>)
        ensures
            match r {
                Ok(address) => hex_spells(hex@, XOR_NAME_LEN as int, address@),
                Err(ArchiveError::ParsingFailed { reason }) => hex_refused(
                    hex@,
                    XOR_NAME_LEN as int,
                    reason@,
                ),
                Err(_) => false,
            },
    {
        match XorName::from_hex(hex.as_str()) {
            Ok(name) => Ok(Arc::new(ArchiveAddress { name })),
            Err(e) => Err(ArchiveError::ParsingFailed { reason: e.parse_failure() }),
        }
    }

    /// The address as 64 lower-case hexadecimal digits.
    pub fn to_hex(&self) -> (text: String)
        ensures
            text@ == hex_encoding(self@),
    {
        self.name.to_hex()
    }
}

/// What retrieving a private archive needs: the data map of the data that
/// holds it.
pub struct PrivateArchiveDataMap {
    map: DataMapChunk,
}

impl View for PrivateArchiveDataMap {
    type V = Seq<u8>;

    closed spec fn view(&self) -> Seq<u8> {
        self.map@
    }
}

impl PrivateArchiveDataMap {
    /// The data map that the hexadecimal text spells: any even number of
    /// digits of either case. Any other text is refused as `ParsingFailed`,
    /// with the reason.
    pub fn from_hex(hex: String) -> (r: Result<Arc<PrivateArchiveDataMap>, ArchiveError>)
        ensures
            match r {
                Ok(map) => hex_spells_any(hex@, map@),
                Err(ArchiveError::ParsingFailed { reason }) => hex_refused_any(hex@, reason@),
                Err(_) => false,
            },
    {
        match decode(hex.as_str()) {
            Ok(bytes) => Ok(Arc::new(PrivateArchiveDataMap { map: DataMapChunk::from_bytes(bytes) })),
            Err(e) => Err(ArchiveError::ParsingFailed { reason: e.parse_failure() }),
        }
    }

    /// The serialised data map as lower-case hexadecimal digits.
    pub fn to_hex(&self) -> (text: String)
        ensures
            text@ == hex_encoding(self@),
    {
        self.map.to_hex()
    }

    /// The bytes of the serialised data map.
    pub fn to_bytes(&self) -> (bytes: Vec<u8>)
        ensures
            bytes@ == self@,
    {
        self.map.to_bytes()
    }
}

/// A file of a public archive.
pub struct PublicArchiveFileEntry {
    /// Where the file sits in the archive.
    pub path: String,
    /// The address of the file's content.
    pub address: Arc<DataAddress>,
    /// Size and time stamps of the file.
    pub metadata: Arc<Metadata>,
}

/// A file of a private archive.
pub struct PrivateArchiveFileEntry {
    /// Where the file sits in the archive.
    pub path: String,
    /// The data map that leads to the file's content.
    pub data_map: Arc<DataMapChunk>,
    /// Size and time stamps of the file.
    pub metadata: Arc<Metadata>,
}

/// What the contracts see of a file of a public archive.
pub open spec fn public_entry_view(entry: PublicArchiveFileEntry) -> ArchivedFile {
    ArchivedFile { path: entry.path@, content: entry.address@, metadata: *entry.metadata }
}

/// What the contracts see of a file of a private archive.
pub open spec fn private_entry_view(entry: PrivateArchiveFileEntry) -> ArchivedFile {
    ArchivedFile { path: entry.path@, content: entry.data_map@, metadata: *entry.metadata }
}

/// The reason given when the file to rename is not in the archive.
pub open spec fn rename_reason(old_path: Seq<char>) -> Seq<char> {
    "Failed to rename file: File not found: "@ + old_path
}

/// What a rename owes: the archive with the file moved, and stamped where a
/// stamp is given, or `InvalidArchive` where no file has the old path.
pub open spec fn rename_outcome(
    files: Seq<ArchivedFile>,
    old_path: Seq<char>,
    new_path: Seq<char>,
    stamp: Option<u64>,
    r: Result<Seq<ArchivedFile>, ArchiveError>,
) -> bool {
    match r {
        Ok(after) => has_path(files, old_path) && renamed(files, old_path, new_path, stamp)
            == Some(after),
        Err(ArchiveError::InvalidArchive { reason }) => !has_path(files, old_path) && reason@
            == rename_reason(old_path),
        Err(_) => false,
    }
}

/// The error that reports a rename of a file that is not there.
fn rename_failed(old_path: &str) -> (err: ArchiveError)
    ensures
        err matches ArchiveError::InvalidArchive { reason } && reason@ == rename_reason(old_path@),
{
    ArchiveError::InvalidArchive {
        reason: join("Failed to rename file: File not found: ", old_path),
    }
}

/// A public archive: files that anyone can read, each with the address of its
/// content. No path occurs twice; the files keep the order in which their
/// paths came in. Paths are compared as text: two spellings of one place are
/// two paths.
pub struct PublicArchive {
    files: FileTable<DataAddress>,
}

impl View for PublicArchive {
    type V = Seq<ArchivedFile>;

    closed spec fn view(&self) -> Seq<ArchivedFile> {
        self.files@
    }
}

impl PublicArchive {
    /// The archive without files.
    pub fn new() -> (archive: Arc<PublicArchive>)
        ensures
            archive@ == Seq::<ArchivedFile>::empty(),
    {
        Arc::new(PublicArchive { files: FileTable::new() })
    }

    /// The archive with the file at `path` added; a file that was at `path`
    /// before is replaced.
    pub fn add_file(&self, path: String, address: Arc<DataAddress>, metadata: Arc<Metadata>) -> (archive:
        Arc<PublicArchive>)
        ensures
            archive@ == put(
                self@,
                ArchivedFile { path: path@, content: address@, metadata: *metadata },
            ),
    {
        Arc::new(PublicArchive { files: self.files.with_file(path, *address, *metadata) })
    }

    /// The archive with the file at `old_path` moved to `new_path`, where it
    /// replaces any file that was there. The file keeps its metadata.
    /// Refused as `InvalidArchive` where no file is at `old_path`.
    pub fn rename_file(&self, old_path: String, new_path: String) -> (r: Result<
        Arc<PublicArchive>,
        ArchiveError,
    >)
        ensures
            rename_outcome(
                self@,
                old_path@,
                new_path@,
                None,
                match r {
                    Ok(archive) => Ok(archive@),
                    Err(e) => Err(e),
                },
            ),
    {
        match self.files.with_renamed(old_path.as_str(), new_path, None) {
            Some(files) => Ok(Arc::new(PublicArchive { files })),
            None => Err(rename_failed(old_path.as_str())),
        }
    }

    /// As `rename_file`, with the rename counted as a change of the file: the
    /// moved file gets `modified` as the time of its last change.
    pub fn rename_file_at(&self, old_path: String, new_path: String, modified: u64) -> (r: Result<
        Arc<PublicArchive>,
        ArchiveError,
    >)
        ensures
            rename_outcome(
                self@,
                old_path@,
                new_path@,
                Some(modified),
                match r {
                    Ok(archive) => Ok(archive@),
                    Err(e) => Err(e),
                },
            ),
    {
        match self.files.with_renamed(old_path.as_str(), new_path, Some(modified)) {
            Some(files) => Ok(Arc::new(PublicArchive { files })),
            None => Err(rename_failed(old_path.as_str())),
        }
    }

    /// The files of the archive, in their order. No path comes twice.
    pub fn files(&self) -> (entries: Vec<PublicArchiveFileEntry>)
        ensures
            entries@.len() == self@.len(),
            forall|i: int|
                0 <= i < entries@.len() ==> public_entry_view(#[trigger] entries@[i]) == self@[i],
            distinct_paths(self@),
            forall|i: int, j: int|
                0 <= i < entries@.len() && 0 <= j < entries@.len() && i != j ==> (
                #[trigger] entries@[i]).path@ != (#[trigger] entries@[j]).path@,
    {
        proof {
            use_type_invariant(&self.files);
        }
        let n = self.files.len();
        let mut entries: Vec<PublicArchiveFileEntry> = Vec::new();
        let mut i: usize = 0;
        while i < n
            invariant
                i <= n,
                n == self.files@.len(),
                entries@.len() == i,
                forall|j: int|
                    0 <= j < i ==> public_entry_view(#[trigger] entries@[j]) == self.files@[j],
            decreases n - i,
        {
            let record = self.files.get(i);
            entries.push(
                PublicArchiveFileEntry {
                    path: record.path.clone(),
                    address: Arc::new(record.target),
                    metadata: Arc::new(record.metadata),
                },
            );
            i = i + 1;
        }
        entries
    }

    /// The number of files in the archive.
    pub fn file_count(&self) -> (n: u64)
        ensures
            n == self@.len(),
    {
        self.files.len() as u64
    }

    /// The addresses of the files' contents as hexadecimal text, one for each
    /// file, in the files' order.
    pub fn addresses(&self) -> (texts: Vec<String>)
        ensures
            texts@.len() == self@.len(),
            forall|i: int|
                0 <= i < texts@.len() ==> (#[trigger] texts@[i])@ == hex_encoding(self@[i].content),
    {
        let n = self.files.len();
        let mut texts: Vec<String> = Vec::new();
        let mut i: usize = 0;
        while i < n
            invariant
                i <= n,
                n == self.files@.len(),
                texts@.len() == i,
                forall|j: int|
                    0 <= j < i ==> (#[trigger] texts@[j])@ == hex_encoding(self.files@[j].content),
            decreases n - i,
        {
            let record = self.files.get(i);
            texts.push(record.target.to_hex());
            i = i + 1;
        }
        texts
    }
}

/// A private archive: files whose content only the holder of the data maps
/// can read. No path occurs twice; the files keep the order in which their
/// paths came in. Paths are compared as text: two spellings of one place are
/// two paths.
pub struct PrivateArchive {
    files: FileTable<DataMapChunk>,
}

impl View for PrivateArchive {
    type V = Seq<ArchivedFile>;

    closed spec fn view(&self) -> Seq<ArchivedFile> {
        self.files@
    }
}

impl PrivateArchive {
    /// The archive without files.
    pub fn new() -> (archive: Arc<PrivateArchive>)
        ensures
            archive@ == Seq::<ArchivedFile>::empty(),
    {
        Arc::new(PrivateArchive { files: FileTable::new() })
    }

    /// The archive with the file at `path` added; a file that was at `path`
    /// before is replaced.
    pub fn add_file(&self, path: String, data_map: Arc<DataMapChunk>, metadata: Arc<Metadata>) -> (archive:
        Arc<PrivateArchive>)
        ensures
            archive@ == put(
                self@,
                ArchivedFile { path: path@, content: data_map@, metadata: *metadata },
            ),
    {
        Arc::new(
            PrivateArchive { files: self.files.with_file(path, data_map.share(), *metadata) },
        )
    }

    /// The archive with the file at `old_path` moved to `new_path`, where it
    /// replaces any file that was there. The file keeps its metadata.
    /// Refused as `InvalidArchive` where no file is at `old_path`.
    pub fn rename_file(&self, old_path: String, new_path: String) -> (r: Result<
        Arc<PrivateArchive>,
        ArchiveError,
    >)
        ensures
            rename_outcome(
                self@,
                old_path@,
                new_path@,
                None,
                match r {
                    Ok(archive) => Ok(archive@),
                    Err(e) => Err(e),
                },
            ),
    {
        match self.files.with_renamed(old_path.as_str(), new_path, None) {
            Some(files) => Ok(Arc::new(PrivateArchive { files })),
            None => Err(rename_failed(old_path.as_str())),
        }
    }

    /// As `rename_file`, with the rename counted as a change of the file: the
    /// moved file gets `modified` as the time of its last change.
    pub fn rename_file_at(&self, old_path: String, new_path: String, modified: u64) -> (r: Result<
        Arc<PrivateArchive>,
        ArchiveError,
    >)
        ensures
            rename_outcome(
                self@,
                old_path@,
                new_path@,
                Some(modified),
                match r {
                    Ok(archive) => Ok(archive@),
                    Err(e) => Err(e),
                },
            ),
    {
        match self.files.with_renamed(old_path.as_str(), new_path, Some(modified)) {
            Some(files) => Ok(Arc::new(PrivateArchive { files })),
            None => Err(rename_failed(old_path.as_str())),
        }
    }

    /// The files of the archive, in their order. No path comes twice.
    pub fn files(&self) -> (entries: Vec<PrivateArchiveFileEntry>)
        ensures
            entries@.len() == self@.len(),
            forall|i: int|
                0 <= i < entries@.len() ==> private_entry_view(#[trigger] entries@[i]) == self@[i],
            distinct_paths(self@),
            forall|i: int, j: int|
                0 <= i < entries@.len() && 0 <= j < entries@.len() && i != j ==> (
                #[trigger] entries@[i]).path@ != (#[trigger] entries@[j]).path@,
    {
        proof {
            use_type_invariant(&self.files);
        }
        let n = self.files.len();
        let mut entries: Vec<PrivateArchiveFileEntry> = Vec::new();
        let mut i: usize = 0;
        while i < n
            invariant
                i <= n,
                n == self.files@.len(),
                entries@.len() == i,
                forall|j: int|
                    0 <= j < i ==> private_entry_view(#[trigger] entries@[j]) == self.files@[j],
            decreases n - i,
        {
            let record = self.files.get(i);
            entries.push(
                PrivateArchiveFileEntry {
                    path: record.path.clone(),
                    data_map: Arc::new(record.target.share()),
                    metadata: Arc::new(record.metadata),
                },
            );
            i = i + 1;
        }
        entries
    }

    /// The number of files in the archive.
    pub fn file_count(&self) -> (n: u64)
        ensures
            n == self@.len(),
    {
        self.files.len() as u64
    }

    /// The data maps of the files, one for each file, in the files' order.
    pub fn data_maps(&self) -> (maps: Vec<Arc<DataMapChunk>>)
        ensures
            maps@.len() == self@.len(),
            forall|i: int| 0 <= i < maps@.len() ==> (#[trigger] maps@[i])@ == self@[i].content,
    {
        let n = self.files.len();
        let mut maps: Vec<Arc<DataMapChunk>> = Vec::new();
        let mut i: usize = 0;
        while i < n
            invariant
                i <= n,
                n == self.files@.len(),
                maps@.len() == i,
                forall|j: int| 0 <= j < i ==> (#[trigger] maps@[j])@ == self.files@[j].content,
            decreases n - i,
        {
            let record = self.files.get(i);
            maps.push(Arc::new(record.target.share()));
            i = i + 1;
        }
        maps
    }
}

} // verus!
