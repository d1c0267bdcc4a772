//! The table of files behind an archive: one record for each path, in the
//! order in which the paths came in.

use std::sync::Arc;
use vstd::prelude::*;

verus! {

/// Size and time stamps of a file in an archive.
#[derive(Clone, Copy, Debug)]
pub struct Metadata {
    /// Size of the file in bytes.
    pub size: u64,
    /// When the file was made, in seconds since the Unix epoch.
    pub created: u64,
    /// When the file was last changed, in seconds since the Unix epoch.
    pub modified: u64,
}

impl Metadata {
    /// Metadata with the given size and time stamps.
    pub fn with_timestamps(size: u64, created: u64, modified: u64) -> (metadata: Arc<Metadata>)
        ensures
            *metadata == (Metadata { size, created, modified }),
    {
        Arc::new(Metadata { size, created, modified })
    }

    /// Size of the file in bytes.
    pub fn size(&self) -> (size: u64)
        ensures
            size == self.size,
    {
        self.size
    }

    /// When the file was made, in seconds since the Unix epoch.
    pub fn created(&self) -> (created: u64)
        ensures
            created == self.created,
    {
        self.created
    }

    /// When the file was last changed, in seconds since the Unix epoch.
    pub fn modified(&self) -> (modified: u64)
        ensures
            modified == self.modified,
    {
        self.modified
    }
}

/// What a file of an archive points to, as far as the table is concerned:
/// some bytes, of which a second copy can be had.
pub trait Payload: Sized {
    /// The bytes that stand for the payload.
    spec fn payload(&self) -> Seq<u8>;

    /// A second payload with the same bytes.
    fn duplicate(&self) -> (other: Self)
        ensures
            other.payload() == self.payload(),
    ;
}

/// One file of an archive.
pub struct FileRecord<T> {
    /// Where the file sits in the archive.
    pub path: String,
    /// What holds the file's content.
    pub target: T,
    /// Size and time stamps of the file.
    pub metadata: Metadata,
}

/// One file of an archive, as the contracts speak of it.
pub struct ArchivedFile {
    /// Where the file sits in the archive.
    pub path: Seq<char>,
    /// The bytes of what holds the file's content.
    pub content: Seq<u8>,
    /// Size and time stamps of the file.
    pub metadata: Metadata,
}

/// What the contracts see of a record.
pub open spec fn record_view<T: Payload>(record: FileRecord<T>) -> ArchivedFile {
    ArchivedFile {
        path: record.path@,
        content: record.target.payload(),
        metadata: record.metadata,
    }
}

/// Whether no path occurs twice in `files`.
pub open spec fn distinct_paths(files: Seq<ArchivedFile>) -> bool {
    forall|i: int, j: int|
        0 <= i < files.len() && 0 <= j < files.len() && i != j ==> (#[trigger] files[i]).path != (
        #[trigger] files[j]).path
}

/// Whether the file at `i` has the path `path`.
pub open spec fn is_path_at(files: Seq<ArchivedFile>, path: Seq<char>, i: int) -> bool {
    0 <= i < files.len() && files[i].path == path
}

/// Whether some file has the path `path`.
pub open spec fn has_path(files: Seq<ArchivedFile>, path: Seq<char>) -> bool {
    exists|i: int| is_path_at(files, path, i)
}

/// The place of the file with the path `path`, if there is one.
pub open spec fn path_index(files: Seq<ArchivedFile>, path: Seq<char>) -> Option<int> {
    if has_path(files, path) {
        Some(choose|i: int| is_path_at(files, path, i))
    } else {
        None
    }
}

/// `files` with `file` put in: in the place of the file that had its path, or
/// at the end where there was none.
pub open spec fn put(files: Seq<ArchivedFile>, file: ArchivedFile) -> Seq<ArchivedFile> {
    match path_index(files, file.path) {
        Some(i) => files.update(i, file),
        None => files.push(file),
    }
}

/// The metadata `metadata` with the time of the last change set to `stamp`,
/// where one is given.
pub open spec fn stamped(metadata: Metadata, stamp: Option<u64>) -> Metadata {
    match stamp {
        Some(modified) => Metadata {
            size: metadata.size,
            created: metadata.created,
            modified,
        },
        None => metadata,
    }
}

/// `files` with the file at `old_path` moved to `new_path`: taken out of its
/// place and put in again under the new path, where it replaces any file that
/// had that path. Where a `stamp` is given, the moved file gets it as the
/// time of its last change. `None` where no file has the path `old_path`.
pub open spec fn renamed(
    files: Seq<ArchivedFile>,
    old_path: Seq<char>,
    new_path: Seq<char>,
    stamp: Option<u64>,
) -> Option<Seq<ArchivedFile>> {
    match path_index(files, old_path) {
        Some(i) => Some(
            put(
                files.remove(i),
                ArchivedFile {
                    path: new_path,
                    content: files[i].content,
                    metadata: stamped(files[i].metadata, stamp),
                },
            ),
        ),
        None => None,
    }
}

/// Among distinct paths, a path is found in one place only.
pub proof fn lemma_path_index_is(files: Seq<ArchivedFile>, path: Seq<char>, i: int)
    requires
        distinct_paths(files),
        is_path_at(files, path, i),
    ensures
        path_index(files, path) == Some(i),
{
    let c = choose|c: int| is_path_at(files, path, c);
    if c != i {
        assert(files[c].path != files[i].path);
    }
}

/// Putting a file in keeps the paths distinct, makes its path lead to it, and
/// leaves every other path with the file it had.
pub proof fn lemma_put(files: Seq<ArchivedFile>, file: ArchivedFile)
    requires
        distinct_paths(files),
    ensures
        distinct_paths(put(files, file)),
        path_index(put(files, file), file.path) matches Some(i) && put(files, file)[i] == file,
        put(files, file).len() == if has_path(files, file.path) {
            files.len()
        } else {
            files.len() + 1
        },
        forall|p: Seq<char>|
            p != file.path ==> (has_path(put(files, file), p) <==> has_path(files, p)),
        forall|p: Seq<char>, i: int|
            p != file.path && is_path_at(files, p, i) ==> is_path_at(put(files, file), p, i)
                && put(files, file)[i] == files[i],
{
    let after = put(files, file);
    match path_index(files, file.path) {
        Some(k) => {
            assert(is_path_at(files, file.path, k));
            assert forall|i: int, j: int|
                0 <= i < after.len() && 0 <= j < after.len() && i != j implies (
            #[trigger] after[i]).path != (#[trigger] after[j]).path by {
                assert(files[i].path != files[j].path);
            }
            assert(is_path_at(after, file.path, k));
            lemma_path_index_is(after, file.path, k);
            assert forall|p: Seq<char>| p != file.path implies (has_path(after, p) <==> has_path(
                files,
                p,
            )) by {
                if has_path(after, p) {
                    let i = choose|i: int| is_path_at(after, p, i);
                    assert(is_path_at(files, p, i));
                }
                if has_path(files, p) {
                    let i = choose|i: int| is_path_at(files, p, i);
                    assert(is_path_at(after, p, i));
                }
            }
        },
        None => {
            let k = files.len() as int;
            assert forall|i: int, j: int|
                0 <= i < after.len() && 0 <= j < after.len() && i != j implies (
            #[trigger] after[i]).path != (#[trigger] after[j]).path by {
                if i < k && j < k {
                    assert(files[i].path != files[j].path);
                } else if i < k {
                    assert(!is_path_at(files, file.path, i));
                } else {
                    assert(!is_path_at(files, file.path, j));
                }
            }
            assert(is_path_at(after, file.path, k));
            lemma_path_index_is(after, file.path, k);
            assert forall|p: Seq<char>| p != file.path implies (has_path(after, p) <==> has_path(
                files,
                p,
            )) by {
                if has_path(after, p) {
                    let i = choose|i: int| is_path_at(after, p, i);
                    assert(is_path_at(files, p, i));
                }
                if has_path(files, p) {
                    let i = choose|i: int| is_path_at(files, p, i);
                    assert(is_path_at(after, p, i));
                }
            }
        },
    }
}

/// Taking a file out keeps the paths distinct and leaves no file with its
/// path.
pub proof fn lemma_remove(files: Seq<ArchivedFile>, i: int)
    requires
        distinct_paths(files),
        0 <= i < files.len(),
    ensures
        distinct_paths(files.remove(i)),
        !has_path(files.remove(i), files[i].path),
{
    let after = files.remove(i);
    assert forall|a: int, b: int|
        0 <= a < after.len() && 0 <= b < after.len() && a != b implies (#[trigger] after[a]).path
        != (#[trigger] after[b]).path by {
        let a0 = if a < i {
            a
        } else {
            a + 1
        };
        let b0 = if b < i {
            b
        } else {
            b + 1
        };
        assert(files[a0].path != files[b0].path);
    }
    assert forall|a: int| !is_path_at(after, files[i].path, a) by {
        if 0 <= a < after.len() {
            let a0 = if a < i {
                a
            } else {
                a + 1
            };
            assert(files[a0].path != files[i].path);
        }
    }
}

/// A rename keeps the paths distinct, leaves no file at the old path unless
/// the two paths are the same, and puts the renamed file at the new one, with
/// its content as it was and its metadata as it was but for the stamp.
pub proof fn lemma_renamed(
    files: Seq<ArchivedFile>,
    old_path: Seq<char>,
    new_path: Seq<char>,
    stamp: Option<u64>,
)
    requires
        distinct_paths(files),
    ensures
        renamed(files, old_path, new_path, stamp) is Some <==> has_path(files, old_path),
        renamed(files, old_path, new_path, stamp) matches Some(after) ==> {
            &&& distinct_paths(after)
            &&& old_path != new_path ==> !has_path(after, old_path)
            &&& path_index(after, new_path) matches Some(j) && path_index(files, old_path)
                matches Some(i) && after[j].content == files[i].content && after[j].metadata
                == stamped(files[i].metadata, stamp)
        },
{
    if has_path(files, old_path) {
        let i = path_index(files, old_path).unwrap();
        assert(is_path_at(files, old_path, i));
        let moved = ArchivedFile {
            path: new_path,
            content: files[i].content,
            metadata: stamped(files[i].metadata, stamp),
        };
        lemma_remove(files, i);
        lemma_put(files.remove(i), moved);
    }
}

/// The files of an archive. No path occurs twice.
pub struct FileTable<T: Payload> {
    records: Vec<FileRecord<T>>,
}

impl<T: Payload> View for FileTable<T> {
    type V = Seq<ArchivedFile>;

    closed spec fn view(&self) -> Seq<ArchivedFile> {
        Seq::new(self.records@.len(), |i: int| record_view(self.records@[i]))
    }
}

impl<T: Payload> FileTable<T> {
    /// No path occurs twice.
    #[verifier::type_invariant]
    pub open spec fn well_formed(&self) -> bool {
        distinct_paths(self@)
    }

    /// The table without files.
    pub fn new() -> (table: FileTable<T>)
        ensures
            table@ == Seq::<ArchivedFile>::empty(),
    {
        let records: Vec<FileRecord<T>> = Vec::new();
        let table = FileTable { records };
        assert(table@ =~= Seq::<ArchivedFile>::empty());
        table
    }

    /// The number of files.
    pub fn len(&self) -> (n: usize)
        ensures
            n == self@.len(),
    {
        self.records.len()
    }

    /// The file at place `i`.
    pub(crate) fn get(&self, i: usize) -> (record: &FileRecord<T>)
        requires
            i < self@.len(),
        ensures
            record_view(*record) == self@[i as int],
    {
        &self.records[i]
    }

    /// The place of the file with the path `path`, if there is one.
    pub fn position(&self, path: &str) -> (r: Option<usize>)
        ensures
            match r {
                Some(i) => path_index(self@, path@) == Some(i as int) && is_path_at(
                    self@,
                    path@,
                    i as int,
                ),
                None => path_index(self@, path@) is None && !has_path(self@, path@),
            },
    {
        proof {
            use_type_invariant(self);
        }
        let n = self.records.len();
        let mut i: usize = 0;
        while i < n
            invariant
                i <= n,
                n == self.records@.len(),
                distinct_paths(self@),
                forall|j: int| 0 <= j < i ==> !is_path_at(self@, path@, j),
            decreases n - i,
        {
            if str_eq(self.records[i].path.as_str(), path) {
                assert(is_path_at(self@, path@, i as int));
                proof {
                    lemma_path_index_is(self@, path@, i as int);
                }
                return Some(i);
            }
            i = i + 1;
        }
        None
    }

    /// A copy of the records from place `from` up to place `to`, appended to
    /// `out`.
    fn copy_range(&self, from: usize, to: usize, out: &mut Vec<FileRecord<T>>)
        requires
            from <= to <= self@.len(),
        ensures
            final(out)@.len() == old(out)@.len() + (to - from),
            forall|j: int| 0 <= j < old(out)@.len() ==> final(out)@[j] == old(out)@[j],
            forall|k: int|
                old(out)@.len() <= k < final(out)@.len() ==> record_view(#[trigger] final(out)@[k])
                    == self@[from + (k - old(out)@.len())],
    {
        let mut i: usize = from;
        while i < to
            invariant
                from <= i <= to,
                to <= self.records@.len(),
                out@.len() == old(out)@.len() + (i - from),
                forall|j: int| 0 <= j < old(out)@.len() ==> out@[j] == old(out)@[j],
                forall|k: int|
                    old(out)@.len() <= k < out@.len() ==> record_view(#[trigger] out@[k])
                        == self@[from + (k - old(out)@.len())],
            decreases to - i,
        {
            let record = &self.records[i];
            out.push(
                FileRecord {
                    path: record.path.clone(),
                    target: record.target.duplicate(),
                    metadata: record.metadata,
                },
            );
            i = i + 1;
        }
    }

    /// The table with the file put in: in the place of the file that had its
    /// path, or at the end where there was none.
    pub fn with_file(&self, path: String, target: T, metadata: Metadata) -> (table: FileTable<T>)
        ensures
            table@ == put(
                self@,
                ArchivedFile { path: path@, content: target.payload(), metadata },
            ),
    {
        proof {
            use_type_invariant(self);
        }
        let ghost file = ArchivedFile { path: path@, content: target.payload(), metadata };
        let n = self.records.len();
        let found = self.position(path.as_str());
        let mut records: Vec<FileRecord<T>> = Vec::new();
        match found {
            Some(i) => {
                self.copy_range(0, i, &mut records);
                records.push(FileRecord { path, target, metadata });
                self.copy_range(i + 1, n, &mut records);
            },
            None => {
                self.copy_range(0, n, &mut records);
                records.push(FileRecord { path, target, metadata });
            },
        }
        proof {
            lemma_put(self@, file);
            let built = Seq::new(records@.len(), |i: int| record_view(records@[i]));
            let wanted = put(self@, file);
            assert(built.len() == wanted.len());
            assert forall|k: int| 0 <= k < built.len() implies built[k] == wanted[k] by {
                assert(built[k] == record_view(records@[k]));
            }
            assert(built =~= wanted);
        }
        FileTable { records }
    }

    /// The table with the file at `old_path` moved to `new_path`, where it
    /// replaces any file that had that path; where a `stamp` is given, the
    /// moved file gets it as the time of its last change. `None` where no
    /// file has the path `old_path`.
    pub fn with_renamed(&self, old_path: &str, new_path: String, stamp: Option<u64>) -> (r: Option<
        FileTable<T>,
    >)
        ensures
            match r {
                Some(table) => renamed(self@, old_path@, new_path@, stamp) == Some(table@),
                None => renamed(self@, old_path@, new_path@, stamp) is None && !has_path(
                    self@,
                    old_path@,
                ),
            },
    {
        proof {
            use_type_invariant(self);
        }
        let n = self.records.len();
        match self.position(old_path) {
            None => None,
            Some(i) => {
                let mut rest: Vec<FileRecord<T>> = Vec::new();
                self.copy_range(0, i, &mut rest);
                self.copy_range(i + 1, n, &mut rest);
                proof {
                    lemma_remove(self@, i as int);
                    let built = Seq::new(rest@.len(), |k: int| record_view(rest@[k]));
                    let wanted = self@.remove(i as int);
                    assert(built.len() == wanted.len());
                    assert forall|k: int| 0 <= k < built.len() implies built[k] == wanted[k] by {
                        assert(built[k] == record_view(rest@[k]));
                    }
                    assert(built =~= wanted);
                }
                let without = FileTable { records: rest };
                let moved = &self.records[i];
                let metadata = match stamp {
                    Some(modified) => Metadata {
                        size: moved.metadata.size,
                        created: moved.metadata.created,
                        modified,
                    },
                    None => moved.metadata,
                };
                Some(without.with_file(new_path, moved.target.duplicate(), metadata))
            },
        }
    }
}

/// Whether two texts are the same.
pub fn str_eq(a: &str, b: &str) -> (same: bool)
    ensures
        same == (a@ == b@),
{
    let a_owned = a.to_owned();
    let b_owned = b.to_owned();
    a_owned == b_owned
}

} // verus!
