//! Folders sent to the phone as ZIP archives built in memory: the archive's
//! name, the names of its entries, the archive itself (built with the `zip`
//! crate), and the frames it is streamed in.
//!
//! Walking the folder and reading its files live outside the library.
use vstd::prelude::*;
use vstd::string::StringSliceAdditionalSpecFns;
use std::io::{Cursor, Write};
use zip::ZipWriter;
use crate::server::{chunks_spec, split_into_chunks};
use crate::sync_session::{slash_path, slashed};
use crate::text::views;

verus! {

/// Target size of the frames a compressed folder is streamed in (1 MiB).
pub const CHUNK_TARGET: usize = 1048576;

/// A ZIP archive being written into memory. The writer is held in a
/// private field: Verus cannot take the `zip` crate's `ZipWriter` type
/// itself, whose parameter is bounded by `std::io` traits.
#[verifier::external_body]
pub struct ZipBuilder {
    inner: ZipWriter<Cursor<Vec<u8>>>,
}

/// An archive entry as the library describes it: whether it is a
/// directory, whether it carries large-file (Zip64) records, its name, and
/// its bytes.
pub open spec fn file_entry(name: Seq<char>, data: Seq<u8>, large: bool) -> (bool, bool, Seq<char>, Seq<u8>) {
    (false, large, name, data)
}

/// A directory entry named `name` (ending in `/`).
pub open spec fn dir_entry(name: Seq<char>) -> (bool, bool, Seq<char>, Seq<u8>) {
    (true, false, name, Seq::empty())
}

/// The entries written into an archive so far, in the order they were
/// started: directory or file, large-file records or not, name, bytes.
pub uninterp spec fn zip_contents(w: ZipBuilder) -> Seq<(bool, bool, Seq<char>, Seq<u8>)>;

/// The bytes of the finished archive holding these entries, as the `zip`
/// crate writes them: files Deflate-compressed, directories stored with
/// mode `0o40755`, large-file records where an entry asks for them, and the
/// fixed 1980 timestamp it uses when built without its `time` feature.
/// The library writes each file's bytes in a single `write_all`.
pub uninterp spec fn zip_archive(entries: Seq<(bool, bool, Seq<char>, Seq<u8>)>) -> Seq<u8>;

/// A file entry has been started and is open for writing.
pub uninterp spec fn zip_writing(w: ZipBuilder) -> bool;

/// No entry of `entries` is named `name`.
pub open spec fn name_is_new(entries: Seq<(bool, bool, Seq<char>, Seq<u8>)>, name: Seq<char>) -> bool {
    forall|k: int| 0 <= k < entries.len() ==> #[trigger] entries[k].2 != name
}

/// The longest entry name the archive format records, in UTF-8 bytes.
pub open spec fn max_entry_name_bytes() -> nat {
    0xFFFF
}

/// The most bytes an entry without large-file records may hold
/// (`zip::ZIP64_BYTES_THR`, `u32::MAX`).
pub open spec fn small_entry_limit() -> nat {
    0xFFFF_FFFF
}

/// A new archive writing into an empty in-memory buffer
/// (`ZipWriter::new(Cursor::new(Vec::new()))`); it holds no entries and none
/// is open.
#[verifier::external_body]
fn new_zip_writer() -> (r: ZipBuilder)
    ensures
        zip_contents(r) == Seq::<(bool, bool, Seq<char>, Seq<u8>)>::empty(),
        !zip_writing(r),
{
    ZipBuilder { inner: ZipWriter::new(Cursor::new(Vec::new())) }
}

/// Starts a Deflate-compressed file entry named `name`, with large-file
/// records when `large` (`ZipWriter::start_file`), after closing the open
/// one. The crate refuses a name already used and nothing else when writing
/// into memory. On success the archive holds one more, empty, entry that is
/// open; on failure the entries are unchanged and none is open. Names longer
/// than the format's 16-bit length field make the crate panic, so they are
/// not accepted here.
#[verifier::external_body]
fn zip_start_file(w: &mut ZipBuilder, name: &str, large: bool) -> (ok: bool)
    requires
        name.spec_bytes().len() <= max_entry_name_bytes(),
    ensures
        ok ==> zip_contents(*final(w)) == zip_contents(*old(w)).push(
            file_entry(name@, Seq::<u8>::empty(), large),
        ),
        !ok ==> zip_contents(*final(w)) == zip_contents(*old(w)),
        zip_writing(*final(w)) == ok,
        ok == name_is_new(zip_contents(*old(w)), name@),
{
    let options = zip::write::SimpleFileOptions::default()
        .compression_method(zip::CompressionMethod::Deflated)
        .large_file(large);
    w.inner.start_file(name, options).is_ok()
}

/// Adds a directory entry named `name`, which ends in `/`
/// (`ZipWriter::add_directory`; the crate stores it uncompressed with mode
/// `0o40755`), after closing the open entry. As for files, only a name
/// already used is refused. Afterwards no entry is open.
#[verifier::external_body]
fn zip_add_directory(w: &mut ZipBuilder, name: &str) -> (ok: bool)
    requires
        name.spec_bytes().len() <= max_entry_name_bytes(),
        name@.len() > 0,
        name@.last() == '/',
    ensures
        ok ==> zip_contents(*final(w)) == zip_contents(*old(w)).push(dir_entry(name@)),
        !ok ==> zip_contents(*final(w)) == zip_contents(*old(w)),
        !zip_writing(*final(w)),
        ok == name_is_new(zip_contents(*old(w)), name@),
{
    let options = zip::write::SimpleFileOptions::default()
        .compression_method(zip::CompressionMethod::Deflated);
    w.inner.add_directory(name, options).is_ok()
}

/// The open entry can take `n` more bytes: it has large-file records, or
/// its size stays within [`small_entry_limit`].
pub open spec fn entry_takes(entries: Seq<(bool, bool, Seq<char>, Seq<u8>)>, n: nat) -> bool {
    entries.len() > 0 && (entries.last().1 || entries.last().3.len() + n <= small_entry_limit())
}

/// Appends `data` to the entry being written (`Write::write_all`). Into
/// memory the crate refuses data only when no entry is open, or when an
/// entry without large-file records would grow past `u32::MAX` bytes, in
/// which case it drops that entry (`abort_file`). On success the last
/// entry's bytes grow by `data`.
#[verifier::external_body]
fn zip_write_all(w: &mut ZipBuilder, data: &[u8]) -> (ok: bool)
    ensures
        zip_writing(*old(w)) && entry_takes(zip_contents(*old(w)), data@.len()) ==> ok,
        zip_writing(*old(w)) && !entry_takes(zip_contents(*old(w)), data@.len()) ==> !ok,
        ok ==> zip_writing(*final(w)) == zip_writing(*old(w)),
        !ok ==> zip_contents(*final(w)) == zip_contents(*old(w)) || zip_contents(*final(w))
            == zip_contents(*old(w)).drop_last(),
        ok && zip_contents(*old(w)).len() > 0 ==> zip_contents(*final(w)) == zip_contents(
            *old(w),
        ).update(
            zip_contents(*old(w)).len() - 1,
            (
                zip_contents(*old(w)).last().0,
                zip_contents(*old(w)).last().1,
                zip_contents(*old(w)).last().2,
                zip_contents(*old(w)).last().3 + data@,
            ),
        ),
{
    w.inner.write_all(data).is_ok()
}

/// Finishes the archive and returns its bytes (`ZipWriter::finish`, then
/// the buffer). Closing the last entry and writing the central directory
/// into the in-memory buffer cannot fail, so the archive is always given.
#[verifier::external_body]
fn zip_finish(w: ZipBuilder) -> (r: Option<Vec<u8>>)
    ensures
        r is Some,
        r matches Some(b) ==> b@ == zip_archive(zip_contents(w)),
{
    match w.inner.finish() {
        Ok(c) => Some(c.into_inner()),
        Err(_) => None,
    }
}

// ─── Names ──────────────────────────────────────────────────────────────────

/// The name of an archive of folder `folder` made at `stamp`:
/// `{folder}_filedrop_{stamp}.zip`.
pub open spec fn zip_name_spec(folder: Seq<char>, stamp: Seq<char>) -> Seq<char> {
    folder + "_filedrop_"@ + stamp + ".zip"@
}

/// The local date and time as `YYYYMMDD_HHMMSS`
/// (`chrono::Local::now().format("%Y%m%d_%H%M%S")`). It depends on the
/// clock, so nothing is claimed about it.
#[verifier::external_body]
fn local_stamp() -> (r: String) {
    chrono::Local::now().format("%Y%m%d_%H%M%S").to_string()
}

/// The archive name for a folder and a time stamp.
pub fn zip_filename_at(folder_name: &str, stamp: &str) -> (r: String)
    ensures
        r@ == zip_name_spec(folder_name@, stamp@),
{
    let mut s = String::from_str(folder_name);
    s.append("_filedrop_");
    s.append(stamp);
    s.append(".zip");
    s
}

/// The archive name for a folder, stamped with the current local time:
/// `{folder}_filedrop_{YYYYMMDD_HHMMSS}.zip`.
pub fn zip_filename(folder_name: &str) -> (r: String)
    ensures
        exists|stamp: Seq<char>| r@ == zip_name_spec(folder_name@, stamp),
{
    let stamp = local_stamp();
    zip_filename_at(folder_name, stamp.as_str())
}

/// The folder's own name, or `folder` when it has none readable as text.
pub fn folder_name_or_default(name: Option<&str>) -> (r: String)
    ensures
        r@ == match name {
            Some(n) => n@,
            None => "folder"@,
        },
{
    match name {
        Some(n) => String::from_str(n),
        None => String::from_str("folder"),
    }
}

// ─── The archive ────────────────────────────────────────────────────────────

/// A file's entry in a folder archive: its relative path with `/`
/// separators, its bytes, with large-file records.
pub open spec fn archive_entry(f: (String, Vec<u8>)) -> (bool, bool, Seq<char>, Seq<u8>) {
    file_entry(slashed(f.0@), f.1@, true)
}

/// The entries as a folder archive holds them.
pub open spec fn archive_entries(files: Seq<(String, Vec<u8>)>) -> Seq<(bool, bool, Seq<char>, Seq<u8>)> {
    files.map_values(|f: (String, Vec<u8>)| archive_entry(f))
}

/// The entries of the files marked kept, in order.
pub open spec fn kept_entries(files: Seq<(String, Vec<u8>)>, keep: Seq<bool>) -> Seq<(bool, bool, Seq<char>, Seq<u8>)>
    decreases files.len(),
{
    if files.len() == 0 || keep.len() == 0 {
        Seq::empty()
    } else {
        let rest = kept_entries(files.drop_last(), keep.drop_last());
        if keep.last() {
            rest.push(archive_entry(files.last()))
        } else {
            rest
        }
    }
}

/// The archive names of the files not marked kept, in order.
pub open spec fn skipped_names(files: Seq<(String, Vec<u8>)>, keep: Seq<bool>) -> Seq<Seq<char>>
    decreases files.len(),
{
    if files.len() == 0 || keep.len() == 0 {
        Seq::empty()
    } else {
        let rest = skipped_names(files.drop_last(), keep.drop_last());
        if keep.last() {
            rest
        } else {
            rest.push(slashed(files.last().0@))
        }
    }
}

/// The files' archive names are pairwise distinct and each fits the
/// format's name field.
pub open spec fn archive_names_fit(files: Seq<(String, Vec<u8>)>) -> bool {
    &&& forall|i: int, j: int|
        0 <= i < j < files.len() ==> slashed(#[trigger] files[i].0@) != slashed(
            #[trigger] files[j].0@,
        )
    &&& forall|i: int|
        0 <= i < files.len() ==> vstd::utf8::encode_utf8(slashed(#[trigger] files[i].0@)).len()
            <= max_entry_name_bytes()
}

/// Builds the archive of a folder streamed to the phone, given as paths
/// relative to the folder and their bytes, with large-file records. An
/// entry the archive cannot take (a name used twice, or one too long for
/// the format) is skipped, as the folder's unreadable files are: every file
/// is either in the archive, in order, or its name is among the skipped
/// names returned beside it, in order. When the names are distinct and
/// short enough nothing is skipped.
pub fn build_zip(files: &Vec<(String, Vec<u8>)>) -> (r: (Option<Vec<u8>>, Vec<String>))
    ensures
        r.0 is Some,
        exists|keep: Seq<bool>|
            {
                &&& keep.len() == files@.len()
                &&& views(r.1@) == #[trigger] skipped_names(files@, keep)
                &&& r.0->0@ == zip_archive(kept_entries(files@, keep))
            },
        r.1@.len() == 0 ==> r.0->0@ == zip_archive(archive_entries(files@)),
        archive_names_fit(files@) ==> r.1@.len() == 0,
{
    let mut w = new_zip_writer();
    let mut skipped: Vec<String> = Vec::new();
    let ghost mut keep: Seq<bool> = Seq::empty();
    let mut i: usize = 0;
    while i < files.len()
        invariant
            i <= files@.len(),
            keep.len() == i,
            zip_contents(w) == kept_entries(files@.take(i as int), keep),
            views(skipped@) == skipped_names(files@.take(i as int), keep),
            skipped@.len() == 0 ==> zip_contents(w) == archive_entries(files@.take(i as int)),
            archive_names_fit(files@) ==> skipped@.len() == 0,
        decreases files@.len() - i,
    {
        let name = slash_path(files[i].0.as_str());
        let ghost before = zip_contents(w);
        let ghost t = files@.take(i + 1);
        proof {
            assert(t.drop_last() =~= files@.take(i as int));
            assert(t.last() == files@[i as int]);
            if archive_names_fit(files@) {
                assert forall|k: int| 0 <= k < before.len() implies #[trigger] before[k].2
                    != name@ by {
                    assert(before[k] == archive_entry(files@[k]));
                    assert(slashed(files@[k].0@) != slashed(files@[i as int].0@));
                }
                assert(vstd::utf8::encode_utf8(slashed(files@[i as int].0@)).len()
                    <= max_entry_name_bytes());
            }
        }
        let mut kept = false;
        if name.as_str().as_bytes().len() <= 65535 {
            if zip_start_file(&mut w, name.as_str(), true) {
                let written = zip_write_all(&mut w, files[i].1.as_slice());
                assert(written);
                assert(Seq::<u8>::empty() + files@[i as int].1@ =~= files@[i as int].1@);
                assert(zip_contents(w) =~= before.push(archive_entry(files@[i as int])));
                kept = true;
            }
        }
        let ghost old_keep = keep;
        proof {
            keep = keep.push(kept);
            assert(keep.drop_last() =~= old_keep);
            assert(kept_entries(t, keep) == if kept {
                kept_entries(files@.take(i as int), old_keep).push(archive_entry(files@[i as int]))
            } else {
                kept_entries(files@.take(i as int), old_keep)
            });
            assert(skipped_names(t, keep) == if kept {
                skipped_names(files@.take(i as int), old_keep)
            } else {
                skipped_names(files@.take(i as int), old_keep).push(slashed(files@[i as int].0@))
            });
        }
        if !kept {
            let ghost sv = views(skipped@);
            let ghost nv = name@;
            skipped.push(name);
            assert(views(skipped@) =~= sv.push(nv));
        } else {
            proof {
                if skipped@.len() == 0 {
                    assert(archive_entries(t) =~= archive_entries(files@.take(i as int)).push(
                        archive_entry(files@[i as int]),
                    ));
                }
            }
        }
        i = i + 1;
    }
    assert(files@.take(files@.len() as int) =~= files@);
    (zip_finish(w), skipped)
}

// ─── Share archives ─────────────────────────────────────────────────────────

/// What a share archive holds: a directory (its relative path) or a file
/// (its relative path and bytes).
#[derive(Debug)]
pub enum ShareItem {
    Directory(String),
    File(String, Vec<u8>),
}

/// The entry of an item in a share archive: directories named with a
/// trailing `/`, files without large-file records, paths with `/`.
pub open spec fn share_entry(item: ShareItem) -> (bool, bool, Seq<char>, Seq<u8>) {
    match item {
        ShareItem::Directory(n) => dir_entry(slashed(n@) + "/"@),
        ShareItem::File(n, d) => file_entry(slashed(n@), d@, false),
    }
}

/// The entries of the items, in order.
pub open spec fn share_entries(items: Seq<ShareItem>) -> Seq<(bool, bool, Seq<char>, Seq<u8>)> {
    items.map_values(|it: ShareItem| share_entry(it))
}

/// No two entries share a name.
pub open spec fn entry_names_distinct(es: Seq<(bool, bool, Seq<char>, Seq<u8>)>) -> bool {
    forall|i: int, j: int| 0 <= i < j < es.len() ==> #[trigger] es[i].2 != #[trigger] es[j].2
}

/// Every file fits an entry without large-file records.
pub open spec fn share_sizes_fit(items: Seq<ShareItem>) -> bool {
    forall|i: int|
        0 <= i < items.len() ==> (#[trigger] items[i] matches ShareItem::File(_, d) ==> d@.len()
            <= small_entry_limit())
}

/// Builds a share archive of directories and files, in the order given.
/// It fails, naming the entry it could not add, exactly when two entries
/// share a name or a file is too large for an entry without large-file
/// records. Names too long for the format are not accepted (the crate
/// panics on them).
pub fn build_share_zip(items: &Vec<ShareItem>) -> (r: Result<Vec<u8>, String>)
    requires
        forall|i: int|
            0 <= i < items@.len() ==> vstd::utf8::encode_utf8(
                #[trigger] share_entries(items@)[i].2,
            ).len() <= max_entry_name_bytes(),
    ensures
        r is Ok <==> entry_names_distinct(share_entries(items@)) && share_sizes_fit(items@),
        r matches Ok(b) ==> b@ == zip_archive(share_entries(items@)),
        r matches Err(n) ==> exists|i: int|
            0 <= i < items@.len() && n@ == #[trigger] share_entries(items@)[i].2,
{
    let mut w = new_zip_writer();
    let ghost es = share_entries(items@);
    let mut i: usize = 0;
    while i < items.len()
        invariant
            i <= items@.len(),
            es == share_entries(items@),
            es.len() == items@.len(),
            zip_contents(w) == es.take(i as int),
            entry_names_distinct(es.take(i as int)),
            share_sizes_fit(items@.take(i as int)),
            forall|k: int|
                0 <= k < items@.len() ==> vstd::utf8::encode_utf8(#[trigger] es[k].2).len()
                    <= max_entry_name_bytes(),
        decreases items@.len() - i,
    {
        let ghost before = zip_contents(w);
        let ghost e = es[i as int];
        assert(e == share_entry(items@[i as int]));
        assert(es.take(i + 1) =~= before.push(e));
        assert(items@.take(i + 1) =~= items@.take(i as int).push(items@[i as int]));
        match &items[i] {
            ShareItem::Directory(n) => {
                let mut name = slash_path(n.as_str());
                name.append("/");
                proof {
                    reveal_strlit("/");
                }
                assert(name@ == e.2);
                if !zip_add_directory(&mut w, name.as_str()) {
                    proof {
                        let k = choose|k: int| 0 <= k < before.len() && #[trigger] before[k].2 == name@;
                        assert(es[k].2 == es[i as int].2);
                    }
                    return Err(name);
                }
            },
            ShareItem::File(n, d) => {
                let name = slash_path(n.as_str());
                assert(name@ == e.2);
                if !zip_start_file(&mut w, name.as_str(), false) {
                    proof {
                        let k = choose|k: int| 0 <= k < before.len() && #[trigger] before[k].2 == name@;
                        assert(es[k].2 == es[i as int].2);
                    }
                    return Err(name);
                }
                if !zip_write_all(&mut w, d.as_slice()) {
                    proof {
                        assert(!(items@[i as int] matches ShareItem::File(_, dd) ==> dd@.len()
                            <= small_entry_limit()));
                    }
                    return Err(name);
                }
                assert(Seq::<u8>::empty() + d@ =~= d@);
                assert(zip_contents(w) =~= es.take(i + 1));
            },
        }
        assert(share_sizes_fit(items@.take(i + 1)));
        i = i + 1;
    }
    assert(es.take(items@.len() as int) =~= es);
    assert(items@.take(items@.len() as int) =~= items@);
    match zip_finish(w) {
        Some(b) => Ok(b),
        None => Err(String::new()),
    }
}

/// The frames a finished archive is streamed in.
pub fn archive_frames(archive: &[u8]) -> (r: Vec<Vec<u8>>)
    ensures
        r@.map_values(|c: Vec<u8>| c@) == chunks_spec(archive@, CHUNK_TARGET as nat),
{
    split_into_chunks(archive, CHUNK_TARGET)
}

} // verus!
