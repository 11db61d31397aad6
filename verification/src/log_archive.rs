//! Packing the application's log files into one zip archive that the user
//! saves, and picking the current session's log file.
//!
//! Listing the log directory and reading the files happen at the edge; the
//! names and contents read there are handed to these functions.

use vstd::prelude::*;
use vstd::string::*;
use crate::text::{ends_with, has_suffix, is_date_text};

verus! {


/// `zip::result::ZipError`, the error of the archive writer's calls,
/// carried through unopened.
#[verifier::external_type_specification]
#[verifier::external_body]
pub struct ExZipError(zip::result::ZipError);

/// An archive being written into memory by a `zip::ZipWriter`, held in a
/// private field.
#[verifier::external_body]
pub struct ArchiveWriter {
    inner: zip::ZipWriter<std::io::Cursor<Vec<u8>>>,
}

/// The entries a zip writer holds so far, each a name and the contents
/// written under it, in the order they were begun.
pub uninterp spec fn archive_entries(w: ArchiveWriter) -> Seq<(Seq<char>, Seq<u8>)>;

/// Whether a zip writer has an entry begun, so that written bytes go into it.
pub uninterp spec fn archive_entry_open(w: ArchiveWriter) -> bool;

/// The entries of the zip archive `bytes`, as a zip reader lists them: each
/// name and its decompressed contents, in order.
pub uninterp spec fn archive_contents(bytes: Seq<u8>) -> Seq<(Seq<char>, Seq<u8>)>;

/// The number of bytes `c` takes in UTF-8.
pub open spec fn utf8_char_len(c: char) -> nat {
    if (c as u32) < 0x80 {
        1
    } else if (c as u32) < 0x800 {
        2
    } else if (c as u32) < 0x1_0000 {
        3
    } else {
        4
    }
}

/// The number of bytes `s` takes in UTF-8.
pub open spec fn utf8_len(s: Seq<char>) -> nat
    decreases s.len(),
{
    if s.len() == 0 {
        0
    } else {
        utf8_len(s.drop_last()) + utf8_char_len(s.last())
    }
}

/// The longest entry name, in UTF-8 bytes, that a zip header can record.
pub open spec fn archive_name_limit() -> nat {
    0xFFFF
}

/// Every entry name fits a zip header.
pub open spec fn names_fit(e: Seq<(Seq<char>, Seq<u8>)>) -> bool {
    forall|k: int| 0 <= k < e.len() ==> utf8_len((#[trigger] e[k]).0) <= archive_name_limit()
}

/// The largest entry, in bytes, that a writer without large-file entries
/// takes.
pub open spec fn archive_entry_limit() -> nat {
    0xFFFF_FFFF
}

/// The largest entry, in bytes, whose Deflate output is sure to stay within
/// `archive_entry_limit`. DEFLATE spends at most 16 bits on an input byte (a
/// literal costs at most 15 bits; a match of at least 3 bytes at most 48),
/// so twice this size plus block headers still fits.
pub open spec fn deflate_safe_size() -> nat {
    0x7000_0000
}

/// No entry is too large to compress safely.
pub open spec fn entries_deflate_safe(e: Seq<(Seq<char>, Seq<u8>)>) -> bool {
    forall|k: int| 0 <= k < e.len() ==> (#[trigger] e[k]).1.len() <= deflate_safe_size()
}

/// No entry has the name `name`.
pub open spec fn name_is_new(e: Seq<(Seq<char>, Seq<u8>)>, name: Seq<char>) -> bool {
    forall|k: int| 0 <= k < e.len() ==> (#[trigger] e[k]).0 != name
}

/// `after` holds the names of `before`, in order, possibly without the last
/// ones.
pub open spec fn names_kept(before: Seq<(Seq<char>, Seq<u8>)>, after: Seq<(Seq<char>, Seq<u8>)>) -> bool {
    &&& after.len() <= before.len()
    &&& forall|k: int| 0 <= k < after.len() ==> (#[trigger] after[k]).0 == before[k].0
}

/// `zip::ZipWriter::new` over an empty in-memory buffer: no entries, none
/// begun.
#[verifier::external_body]
fn archive_writer_new() -> (w: ArchiveWriter)
    ensures
        archive_entries(w) == Seq::<(Seq<char>, Seq<u8>)>::empty(),
        !archive_entry_open(w),
{
    ArchiveWriter { inner: zip::ZipWriter::new(std::io::Cursor::new(Vec::new())) }
}

/// `zip::ZipWriter::start_file` with Deflate compression and otherwise
/// default options: finishes the entry being written and begins the entry
/// `name`. A name longer than a zip header records makes the writer panic,
/// so it is ruled out. Writing into memory cannot fail, so the call succeeds
/// when the name is new and the entry being finished compresses within the
/// size limit (which `entries_deflate_safe` makes sure of); the writer
/// refuses a name it already holds. On success the new entry is open and
/// empty; on failure the entries are as they were.
#[verifier::external_body]
fn archive_start_file(w: &mut ArchiveWriter, name: &str) -> (r: Result<(), zip::result::ZipError>)
    requires
        utf8_len(name@) <= archive_name_limit(),
    ensures
        name_is_new(archive_entries(*old(w)), name@) && entries_deflate_safe(
            archive_entries(*old(w)),
        ) ==> r is Ok,
        r is Ok ==> archive_entries(*final(w)) == archive_entries(*old(w)).push(
            (name@, Seq::<u8>::empty()),
        ) && archive_entry_open(*final(w)),
        r is Err ==> archive_entries(*final(w)) == archive_entries(*old(w)),
{
    let options = zip::write::SimpleFileOptions::default().compression_method(
        zip::CompressionMethod::Deflated,
    );
    w.inner.start_file(name, options)
}

/// `std::io::Write::write_all` on the archive: appends `contents` to the
/// open entry. Writing into memory cannot fail, so it succeeds when an entry
/// is open and stays within the size limit. Whatever happens, the names
/// stay, though an entry that outgrows the limit is dropped.
#[verifier::external_body]
fn archive_write_all(w: &mut ArchiveWriter, contents: &[u8]) -> (written: bool)
    ensures
        ({
            let e = archive_entries(*old(w));
            archive_entry_open(*old(w)) && e.len() > 0 && e.last().1.len() + contents@.len()
                <= archive_entry_limit() ==> written && archive_entry_open(*final(w))
                && archive_entries(*final(w)) == e.drop_last().push(
                (e.last().0, e.last().1 + contents@),
            )
        }),
        names_kept(archive_entries(*old(w)), archive_entries(*final(w))),
{
    std::io::Write::write_all(&mut w.inner, contents).is_ok()
}

/// `zip::ZipWriter::finish`: finishes the open entry, writes the central
/// directory and hands back the archive's bytes, which hold the writer's
/// entries. The names must fit their headers (else the writer panics).
/// Writing into memory cannot fail, so it succeeds when the open entry
/// compresses within the size limit.
#[verifier::external_body]
fn archive_finish(w: ArchiveWriter) -> (r: Result<Vec<u8>, zip::result::ZipError>)
    requires
        names_fit(archive_entries(w)),
    ensures
        entries_deflate_safe(archive_entries(w)) ==> r is Ok,
        r matches Ok(bytes) ==> archive_contents(bytes@) == archive_entries(w),
{
    match w.inner.finish() {
        Ok(cursor) => Ok(cursor.into_inner()),
        Err(e) => Err(e),
    }
}

/// The `Display` text of a `zip::result::ZipError`; its wording is left
/// unsaid.
#[verifier::external_body]
fn zip_error_text(e: &zip::result::ZipError) -> (r: String) {
    e.to_string()
}

/// `chrono::Local::now().format("%Y-%m-%d")`: today's local date. Which
/// date depends on the clock and the time zone; every outcome is a date as
/// `%Y-%m-%d` writes it (the clock is never before 1970).
#[verifier::external_body]
fn local_date_today() -> (r: String)
    ensures
        is_date_text(r@),
{
    chrono::Local::now().format("%Y-%m-%d").to_string()
}

/// A file whose extension is `log`: its name ends in `.log` after at least
/// one other character (a name that only begins with a dot has no
/// extension).
pub open spec fn is_log_file_name_spec(name: Seq<char>) -> bool {
    name.len() > 4 && has_suffix(name, ".log"@)
}

/// Whether a file of the log directory goes into the archive.
pub fn is_log_file_name(name: &str) -> (r: bool)
    ensures
        r == is_log_file_name_spec(name@),
{
    name.unicode_len() > 4 && ends_with(name, ".log")
}

/// The name offered for the archive saved on `date`.
pub fn log_archive_name(date: &str) -> (r: String)
    ensures
        r@ == "flowstt-logs-"@ + date@ + ".zip"@,
{
    String::from_str("flowstt-logs-").concat(date).concat(".zip")
}

/// The name offered for the archive saved today.
pub fn default_log_archive_name() -> (r: String)
    ensures
        exists|date: Seq<char>| is_date_text(date) && r@ == "flowstt-logs-"@ + date + ".zip"@,
{
    let date = local_date_today();
    log_archive_name(date.as_str())
}

/// The (name, contents) of the files that could be read, in order.
pub open spec fn archive_plan(entries: Seq<Option<(String, Vec<u8>)>>) -> Seq<(Seq<char>, Seq<u8>)>
    decreases entries.len(),
{
    if entries.len() == 0 {
        Seq::<(Seq<char>, Seq<u8>)>::empty()
    } else {
        let rest = archive_plan(entries.drop_last());
        match entries.last() {
            Some(f) => rest.push((f.0@, f.1@)),
            None => rest,
        }
    }
}

/// No two planned files share a name (as the files of one directory do not).
pub open spec fn plan_names_distinct(plan: Seq<(Seq<char>, Seq<u8>)>) -> bool {
    forall|i: int, j: int| 0 <= i < j < plan.len() ==> (#[trigger] plan[i]).0 != (#[trigger] plan[j]).0
}

/// The names of the files that could be read fit a zip header.
pub open spec fn entry_names_fit(entries: Seq<Option<(String, Vec<u8>)>>) -> bool {
    forall|k: int|
        0 <= k < entries.len() && #[trigger] entries[k] is Some ==> utf8_len(
            entries[k]->Some_0.0@,
        ) <= archive_name_limit()
}

/// Pack the log files into a zip archive, each under its name, compressed
/// with Deflate, in the order given. An entry is `None` when its file could
/// not be named or read; it is left out, but still counts as a log file.
/// With no log file at all the answer is the error `no_logs`; when the
/// archive cannot be finished, `Zip error: ` and the reason. When the names
/// differ and no file is too large to compress safely, the archive is made
/// and holds exactly the readable files. A name longer than a zip header
/// records is not accepted.
pub fn archive_log_files(entries: &Vec<Option<(String, Vec<u8>)>>) -> (r: Result<Vec<u8>, String>)
    requires
        entry_names_fit(entries@),
    ensures
        entries@.len() == 0 ==> (r matches Err(e) && e@ == "no_logs"@),
        entries@.len() > 0 ==> (r is Ok || (r matches Err(e) && exists|why: Seq<char>|
            e@ == "Zip error: "@ + why)),
        entries@.len() > 0 && plan_names_distinct(archive_plan(entries@)) && entries_deflate_safe(
            archive_plan(entries@),
        ) ==> (r matches Ok(bytes) && archive_contents(bytes@) == archive_plan(entries@)),
{
    if entries.len() == 0 {
        return Err(String::from_str("no_logs"));
    }
    let ghost plan = archive_plan(entries@);
    let ghost good = plan_names_distinct(plan) && entries_deflate_safe(plan);
    let mut w = archive_writer_new();
    let mut i: usize = 0;
    assert(entries@.subrange(0, 0) =~= Seq::<Option<(String, Vec<u8>)>>::empty());
    while i < entries.len()
        invariant
            0 <= i <= entries@.len(),
            entry_names_fit(entries@),
            plan == archive_plan(entries@),
            good == (plan_names_distinct(plan) && entries_deflate_safe(plan)),
            names_fit(archive_entries(w)),
            good ==> archive_entries(w) == archive_plan(entries@.subrange(0, i as int)),
            good ==> (archive_entries(w).len() > 0 ==> archive_entry_open(w)),
        decreases entries@.len() - i,
    {
        proof {
            lemma_plan_prefix(entries@, i as int);
            assert(entries@.subrange(0, i + 1).drop_last() =~= entries@.subrange(0, i as int));
            assert(entries@.subrange(0, i + 1).last() == entries@[i as int]);
        }
        if let Some((name, contents)) = &entries[i] {
            let ghost before = archive_entries(w);
            assert(entries@[i as int] is Some);
            assert(utf8_len(name@) <= archive_name_limit());
            proof {
                if good {
                    let k0 = archive_plan(entries@.subrange(0, i as int)).len() as int;
                    lemma_plan_prefix(entries@, i + 1);
                    assert(entries@[i as int] == Some((*name, *contents)));
                    assert(archive_plan(entries@.subrange(0, i + 1)) == before.push((name@, contents@)));
                    assert(archive_plan(entries@.subrange(0, i + 1))[k0] == (name@, contents@));
                    assert forall|k: int| 0 <= k < before.len() implies (#[trigger] before[k]).0 != name@ by {
                        assert(plan[k] == before[k]);
                        assert(plan[k0] == (name@, contents@));
                    }
                    assert forall|k: int| 0 <= k < before.len() implies (#[trigger] before[k]).1.len()
                        <= deflate_safe_size() by {
                        assert(plan[k] == before[k]);
                    }
                    assert(plan[k0] == (name@, contents@));
                }
            }
            let _ = archive_start_file(&mut w, name.as_str());
            let ghost started = archive_entries(w);
            assert(names_fit(started)) by {
                assert forall|k: int| 0 <= k < started.len() implies utf8_len((#[trigger] started[k]).0)
                    <= archive_name_limit() by {
                    if k < before.len() {
                        assert(started[k] == before[k]);
                    }
                }
            }
            let _ = archive_write_all(&mut w, contents.as_slice());
            proof {
                let after = archive_entries(w);
                assert forall|k: int| 0 <= k < after.len() implies utf8_len((#[trigger] after[k]).0)
                    <= archive_name_limit() by {
                    assert(after[k].0 == started[k].0);
                }
                if good {
                    let e = before.push((name@, Seq::<u8>::empty()));
                    assert(e.last().1 + contents@ =~= contents@);
                    assert(e.drop_last() =~= before);
                }
            }
        }
        i = i + 1;
    }
    assert(entries@.subrange(0, entries@.len() as int) =~= entries@);
    match archive_finish(w) {
        Ok(bytes) => Ok(bytes),
        Err(e) => {
            let why = zip_error_text(&e);
            Err(String::from_str("Zip error: ").concat(why.as_str()))
        },
    }
}

/// The plan of a prefix of the entries is a prefix of the plan.
proof fn lemma_plan_prefix(entries: Seq<Option<(String, Vec<u8>)>>, n: int)
    requires
        0 <= n <= entries.len(),
    ensures
        archive_plan(entries.subrange(0, n)).len() <= archive_plan(entries).len(),
        forall|k: int|
            0 <= k < archive_plan(entries.subrange(0, n)).len() ==> #[trigger] archive_plan(
                entries.subrange(0, n),
            )[k] == archive_plan(entries)[k],
    decreases entries.len(),
{
    if n == entries.len() {
        assert(entries.subrange(0, n) =~= entries);
    } else {
        assert(entries.drop_last().subrange(0, n) =~= entries.subrange(0, n));
        lemma_plan_prefix(entries.drop_last(), n);
    }
}

/// The position of the most recently modified file: the greatest time,
/// the last of several equal ones; `None` for no files.
pub fn latest_modified(times: &Vec<u128>) -> (r: Option<usize>)
    ensures
        times@.len() == 0 <==> r is None,
        r matches Some(i) ==> {
            &&& i < times@.len()
            &&& forall|k: int| 0 <= k < times@.len() ==> times@[k] <= times@[i as int]
            &&& forall|k: int| i < k < times@.len() ==> times@[k] < times@[i as int]
        },
{
    if times.len() == 0 {
        return None;
    }
    let mut best: usize = 0;
    let mut i: usize = 1;
    while i < times.len()
        invariant
            1 <= i <= times@.len(),
            best < i,
            forall|k: int| 0 <= k < i ==> times@[k] <= times@[best as int],
            forall|k: int| best < k < i ==> times@[k] < times@[best as int],
        decreases times@.len() - i,
    {
        if times[i] >= times[best] {
            best = i;
        }
        i = i + 1;
    }
    Some(best)
}

} // verus!
