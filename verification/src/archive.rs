//! Archive intake: from the bytes of an uploaded zip archive to the files of
//! the code bundle. The zip format itself is read by the `zip` crate; what is
//! decided here is which entries become files and when the archive is
//! refused.

use std::io::{Cursor, Read};
use vstd::prelude::*;
use zip::ZipArchive;

verus! {

/// `zip::ZipArchive`, the reader of a zip archive.
#[verifier::external_type_specification]
#[verifier::external_body]
#[verifier::reject_recursive_types(R)]
pub struct ExZipArchive<R>(ZipArchive<R>);

/// `std::io::Cursor`, a reader over bytes in memory.
#[verifier::external_type_specification]
#[verifier::external_body]
#[verifier::reject_recursive_types(T)]
pub struct ExCursor<T>(Cursor<T>);

/// One entry of an archive as the zip reader reports it.
#[derive(Clone, Debug, PartialEq, Eq)]
pub struct RawEntry {
    /// Whether the entry is a directory.
    pub is_dir: bool,
    /// The entry's name, if it could be decoded.
    pub name: Option<String>,
    /// The entry's decompressed content, if it could be read.
    pub content: Option<Vec<u8>>,
}

/// An entry as plain values.
pub struct RawEntryView {
    pub is_dir: bool,
    pub name: Option<Seq<char>>,
    pub content: Option<Seq<u8>>,
}

impl View for RawEntry {
    type V = RawEntryView;

    open spec fn view(&self) -> RawEntryView {
        RawEntryView {
            is_dir: self.is_dir,
            name: match self.name {
                Some(n) => Some(n@),
                None => None,
            },
            content: match self.content {
                Some(c) => Some(c@),
                None => None,
            },
        }
    }
}

/// The view of an entry that may be missing.
pub open spec fn optional_entry_view(entry: Option<RawEntry>) -> Option<RawEntryView> {
    match entry {
        Some(e) => Some(e@),
        None => None,
    }
}

/// The bytes that an open archive reads from.
pub uninterp spec fn archive_source(archive: ZipArchive<Cursor<Vec<u8>>>) -> Seq<u8>;

/// Whether `zip::ZipArchive::new` accepts `bytes` as an archive.
pub uninterp spec fn zip_is_archive(bytes: Seq<u8>) -> bool;

/// The number of entries that `zip::ZipArchive::len` reports for the archive
/// `bytes`.
pub uninterp spec fn zip_entry_count(bytes: Seq<u8>) -> nat;

/// What `zip::ZipArchive::by_index` and the entry it returns give for entry
/// `index` of the archive `bytes`, or `None` where `by_index` fails: what
/// `is_dir` reports, the name that `name` decodes, and the bytes that reading
/// the entry to its end gives, the last two `None` where they fail.
pub uninterp spec fn zip_entry(bytes: Seq<u8>, index: nat) -> Option<RawEntryView>;

/// Calls `zip::ZipArchive::new` on a cursor over a copy of `bytes`. Whether
/// the archive opens depends on the bytes alone, and an archive that opens
/// reads from those bytes.
#[verifier::external_body]
fn open_archive(bytes: &[u8]) -> (opened: Option<ZipArchive<Cursor<Vec<u8>>>>)
    ensures
        opened is Some <==> zip_is_archive(bytes@),
        opened matches Some(archive) ==> archive_source(archive) == bytes@,
{
    ZipArchive::new(Cursor::new(bytes.to_vec())).ok()
}

/// Calls `zip::ZipArchive::len`: the number of entries in the central
/// directory that was read when the archive was opened.
#[verifier::external_body]
fn archive_len(archive: &ZipArchive<Cursor<Vec<u8>>>) -> (count: usize)
    ensures
        count == zip_entry_count(archive_source(*archive)),
{
    archive.len()
}

/// Calls `zip::ZipArchive::by_index` and hands out what the entry holds:
/// `is_dir`, `name` and the bytes that reading it to the end gives. The
/// archive still reads from the same bytes afterwards; the result depends on
/// those bytes and the index alone.
#[verifier::external_body]
fn read_entry(archive: &mut ZipArchive<Cursor<Vec<u8>>>, index: usize) -> (entry: Option<RawEntry>)
    ensures
        archive_source(*final(archive)) == archive_source(*old(archive)),
        optional_entry_view(entry) == zip_entry(archive_source(*old(archive)), index as nat),
{
    let mut file = archive.by_index(index).ok()?;
    let mut bytes = Vec::new();
    let read = file.read_to_end(&mut bytes).ok();
    let name = file.name().ok().map(|n| n.into_owned());
    Some(RawEntry { is_dir: file.is_dir(), name, content: read.map(|_| bytes) })
}

/// The files of a code bundle as plain values: relative path and content.
pub open spec fn bundle_view(bundle: Seq<(String, Vec<u8>)>) -> Seq<(Seq<char>, Seq<u8>)> {
    Seq::new(bundle.len(), |i: int| (bundle[i].0@, bundle[i].1@))
}

/// Why an upload yields no code bundle.
#[derive(Clone, Copy, Debug, PartialEq, Eq, Structural)]
pub enum ArchiveError {
    /// The bytes are not a zip archive that the reader accepts.
    NotAnArchive,
    /// The entry with this index cannot be read.
    UnreadableEntry { index: usize },
}

/// An entry that ends the intake: one that cannot be opened, or a file whose
/// content or name cannot be read. A directory never does.
pub open spec fn entry_fails(entry: Option<RawEntryView>) -> bool {
    match entry {
        None => true,
        Some(e) => !e.is_dir && (e.content is None || e.name is None),
    }
}

/// The file that an entry contributes: none for a directory, path and
/// content for a file.
pub open spec fn entry_files(entry: Option<RawEntryView>) -> Seq<(Seq<char>, Seq<u8>)> {
    match entry {
        Some(e) => if !e.is_dir && e.content is Some && e.name is Some {
            seq![(e.name->0, e.content->0)]
        } else {
            Seq::empty()
        },
        None => Seq::empty(),
    }
}

/// The files of the first `n` entries, in the entries' order.
pub open spec fn files_of(entries: Seq<Option<RawEntryView>>, n: nat) -> Seq<
    (Seq<char>, Seq<u8>),
>
    decreases n,
{
    if n == 0 {
        Seq::empty()
    } else {
        files_of(entries, (n - 1) as nat) + entry_files(entries[n - 1])
    }
}

/// Whether `index` is the first entry that ends the intake.
pub open spec fn is_first_failure(entries: Seq<Option<RawEntryView>>, index: int) -> bool {
    &&& 0 <= index < entries.len()
    &&& entry_fails(entries[index])
    &&& forall|i: int| 0 <= i < index ==> !entry_fails(#[trigger] entries[i])
}

/// The views of a list of entries, in order.
pub open spec fn entries_view(entries: Seq<Option<RawEntry>>) -> Seq<Option<RawEntryView>> {
    Seq::new(entries.len(), |i: int| optional_entry_view(entries[i]))
}

/// What a list of entries yields: the first failing entry as an error, or
/// else the files of all entries.
pub open spec fn bundle_matches(
    entries: Seq<Option<RawEntryView>>,
    result: Result<Vec<(String, Vec<u8>)>, ArchiveError>,
) -> bool {
    match result {
        Ok(files) => {
            &&& forall|i: int| 0 <= i < entries.len() ==> !entry_fails(#[trigger] entries[i])
            &&& bundle_view(files@) == files_of(entries, entries.len())
        },
        Err(ArchiveError::UnreadableEntry { index }) => is_first_failure(entries, index as int),
        Err(ArchiveError::NotAnArchive) => false,
    }
}

/// The code bundle of a list of entries: directories are dropped, every file
/// keeps its name and content, and the first entry that cannot be read
/// refuses the whole list.
pub fn assemble_bundle(entries: Vec<Option<RawEntry>>) -> (result: Result<
    Vec<(String, Vec<u8>)>,
    ArchiveError,
>)
    ensures
        bundle_matches(entries_view(entries@), result),
{
    let ghost all = entries_view(entries@);
    let total = entries.len();
    let mut files: Vec<(String, Vec<u8>)> = Vec::new();
    let mut index: usize = 0;
    for entry in it: entries.into_iter()
        invariant
            all == entries_view(it.seq()),
            all.len() == it.seq().len(),
            all.len() == total,
            index == it.index(),
            forall|i: int| 0 <= i < index ==> !entry_fails(#[trigger] all[i]),
            bundle_view(files@) == files_of(all, index as nat),
    {
        match entry {
            None => {
                return Err(ArchiveError::UnreadableEntry { index });
            },
            Some(e) => {
                if !e.is_dir {
                    match (e.name, e.content) {
                        (Some(name), Some(content)) => {
                            files.push((name, content));
                        },
                        _ => {
                            return Err(ArchiveError::UnreadableEntry { index });
                        },
                    }
                }
            },
        }
        index = index + 1;
    }
    Ok(files)
}

/// The entries of the archive `bytes` as the zip reader gives them.
pub open spec fn zip_entries(bytes: Seq<u8>) -> Seq<Option<RawEntryView>> {
    Seq::new(zip_entry_count(bytes), |i: int| zip_entry(bytes, i as nat))
}

/// Whether the archive `bytes` yields a code bundle: the reader accepts it
/// and none of its entries ends the intake.
pub open spec fn archive_is_readable(bytes: Seq<u8>) -> bool {
    &&& zip_is_archive(bytes)
    &&& forall|i: int|
        0 <= i < zip_entries(bytes).len() ==> !entry_fails(#[trigger] zip_entries(bytes)[i])
}

/// The files of the archive `bytes`, in the archive's order.
pub open spec fn archive_files(bytes: Seq<u8>) -> Seq<(Seq<char>, Seq<u8>)> {
    files_of(zip_entries(bytes), zip_entries(bytes).len())
}

/// Reads every entry of an uploaded archive and returns the files of the
/// code bundle, in the archive's order.
pub fn extract_zip_to_vec(zip_bytes: &[u8]) -> (result: Result<
    Vec<(String, Vec<u8>)>,
    ArchiveError,
>)
    ensures
        !zip_is_archive(zip_bytes@) ==> result == Err::<Vec<(String, Vec<u8>)>, _>(
            ArchiveError::NotAnArchive,
        ),
        zip_is_archive(zip_bytes@) ==> bundle_matches(zip_entries(zip_bytes@), result),
        result is Ok <==> archive_is_readable(zip_bytes@),
        result matches Ok(files) ==> bundle_view(files@) == archive_files(zip_bytes@),
{
    let mut archive = match open_archive(zip_bytes) {
        Some(archive) => archive,
        None => {
            return Err(ArchiveError::NotAnArchive);
        },
    };
    let count = archive_len(&archive);
    let mut entries: Vec<Option<RawEntry>> = Vec::new();
    let mut index: usize = 0;
    while index < count
        invariant
            index <= count,
            archive_source(archive) == zip_bytes@,
            zip_entry_count(zip_bytes@) == count,
            entries@.len() == index,
            forall|i: int|
                0 <= i < index ==> optional_entry_view(#[trigger] entries@[i]) == zip_entry(
                    zip_bytes@,
                    i as nat,
                ),
        decreases count - index,
    {
        let entry = read_entry(&mut archive, index);
        entries.push(entry);
        index = index + 1;
    }
    assert(entries_view(entries@) =~= zip_entries(zip_bytes@));
    assemble_bundle(entries)
}

} // verus!
