//! Transcription history: the entries kept in memory, their additions and
//! removals, and the upkeep of the cached recordings they point to.
//!
//! Reading and writing the history file, and deleting recordings, happen
//! at the edge; this module decides what changes.

use vstd::prelude::*;
use vstd::string::*;
use crate::test_mode::file_extension;
use crate::text::{decimal, hex_fixed, is_rfc3339_utc_text, str_eq, u128_to_decimal, u32_to_hex8};
use crate::types;

verus! {

/// A single entry in the transcription history.
pub struct HistoryEntry {
    /// Unique identifier for this entry
    pub id: String,
    /// Transcribed text
    pub text: String,
    /// ISO 8601 timestamp of when the transcription occurred
    pub timestamp: String,
    /// Path to the cached WAV file, if it still exists
    pub wav_path: Option<String>,
}

/// `chrono::Utc::now().to_rfc3339()`: the current UTC time as RFC 3339
/// text. Which time it is depends on the clock; every outcome has the
/// layout `to_rfc3339` writes (the clock is never before 1970).
#[verifier::external_body]
fn now_rfc3339() -> (r: String)
    ensures
        is_rfc3339_utc_text(r@),
{
    chrono::Utc::now().to_rfc3339()
}

/// The id of a history entry made `millis` milliseconds after the Unix
/// epoch with the random suffix `random`: the decimal time, a hyphen and
/// eight lower-case hexadecimal digits.
pub fn history_entry_id(millis: u128, random: u32) -> (r: String)
    ensures
        r@ == decimal(millis as nat) + "-"@ + hex_fixed(random as nat, 8),
{
    u128_to_decimal(millis).concat("-").concat(u32_to_hex8(random).as_str())
}

/// Manages the transcription history.
pub struct TranscriptionHistory {
    /// Path to the history file
    pub history_path: String,
    /// History entries, oldest first
    pub entries: Vec<HistoryEntry>,
}

/// `after` is `before` without its first entry with ID `id`, which is `e`.
pub open spec fn is_first_removal(
    before: Seq<HistoryEntry>,
    after: Seq<HistoryEntry>,
    id: Seq<char>,
    e: HistoryEntry,
) -> bool {
    exists|i: int|
        0 <= i < before.len() && e == before[i] && e.id@ == id && (forall|k: int|
            0 <= k < i ==> before[k].id@ != id) && after == #[trigger] before.remove(i)
}

/// The IDs of some entries.
pub open spec fn entry_ids(entries: Seq<HistoryEntry>) -> Seq<Seq<char>> {
    entries.map_values(|e: HistoryEntry| e.id@)
}

impl TranscriptionHistory {
    pub open spec fn spec_entries(&self) -> Seq<HistoryEntry> {
        self.entries@
    }

    /// A history holding the entries read from `history_path` (none when
    /// the file was missing, unreadable or corrupt).
    pub fn with_entries(history_path: String, entries: Vec<HistoryEntry>) -> (r: Self)
        ensures
            r.history_path == history_path,
            r.spec_entries() == entries@,
    {
        TranscriptionHistory { history_path, entries }
    }

    /// Add an entry with the given ID, stamped with the current time, and
    /// return it. The caller saves the history.
    pub fn add_entry(&mut self, id: String, text: String, wav_path: Option<String>) -> (r:
        HistoryEntry)
        ensures
            r.id == id,
            r.text == text,
            r.wav_path == wav_path,
            is_rfc3339_utc_text(r.timestamp@),
            final(self).spec_entries().len() == old(self).spec_entries().len() + 1,
            final(self).spec_entries().subrange(0, old(self).spec_entries().len() as int) == old(self).spec_entries(),
            final(self).spec_entries().last() == r,
            final(self).history_path == old(self).history_path,
    {
        let timestamp = now_rfc3339();
        let stored = HistoryEntry {
            id: id.clone(),
            text: text.clone(),
            timestamp: timestamp.clone(),
            wav_path: match &wav_path {
                Some(p) => Some(p.clone()),
                None => None,
            },
        };
        let ghost before = self.entries@;
        self.entries.push(stored);
        assert(self.entries@.subrange(0, before.len() as int) =~= before);
        HistoryEntry { id, text, timestamp, wav_path }
    }

    /// Remove the first entry with the given ID and return it (its cached
    /// recording is deleted and the history saved by the caller); `None`
    /// when no entry has that ID.
    pub fn delete_entry(&mut self, id: &str) -> (r: Option<HistoryEntry>)
        ensures
            final(self).history_path == old(self).history_path,
            r is None ==> !entry_ids(old(self).spec_entries()).contains(id@)
                && final(self).spec_entries() == old(self).spec_entries(),
            r is Some ==> is_first_removal(old(self).spec_entries(), final(self).spec_entries(), id@, r->0),
    {
        let ghost before = self.entries@;
        let mut i: usize = 0;
        let mut found = false;
        while i < self.entries.len()
            invariant_except_break
                i <= self.entries@.len(),
                forall|k: int| 0 <= k < i ==> self.entries@[k].id@ != id@,
                !found,
            ensures
                i <= self.entries@.len(),
                forall|k: int| 0 <= k < i ==> self.entries@[k].id@ != id@,
                found ==> i < self.entries@.len() && self.entries@[i as int].id@ == id@,
                !found ==> i == self.entries@.len(),
            decreases self.entries@.len() - i,
        {
            if str_eq(self.entries[i].id.as_str(), id) {
                found = true;
                break;
            }
            i = i + 1;
        }
        if found {
            let e = self.entries.remove(i);
            assert(is_first_removal(before, self.entries@, id@, e));
            Some(e)
        } else {
            proof {
                if entry_ids(self.entries@).contains(id@) {
                    let k = choose|k: int|
                        0 <= k < entry_ids(self.entries@).len() && entry_ids(self.entries@)[k]
                            == id@;
                    assert(self.entries@[k].id@ == id@);
                }
            }
            None
        }
    }

    /// All history entries, oldest first.
    pub fn get_entries(&self) -> (r: &[HistoryEntry])
        ensures
            r@ == self.spec_entries(),
    {
        self.entries.as_slice()
    }

    /// Forget the recordings that no longer exist: `present[i]` tells
    /// whether entry `i`'s recording is still on disk. The text is kept.
    pub fn clear_missing_recordings(&mut self, present: &Vec<bool>)
        requires
            present@.len() == old(self).spec_entries().len(),
        ensures
            final(self).history_path == old(self).history_path,
            final(self).spec_entries().len() == old(self).spec_entries().len(),
            forall|i: int|
                0 <= i < old(self).spec_entries().len() ==> {
                    let a = old(self).spec_entries()[i];
                    let b = #[trigger] final(self).spec_entries()[i];
                    &&& b.id == a.id
                    &&& b.text == a.text
                    &&& b.timestamp == a.timestamp
                    &&& b.wav_path == (if a.wav_path is Some && !present@[i] {
                        None
                    } else {
                        a.wav_path
                    })
                },
    {
        let ghost before = self.entries@;
        let ghost path = self.history_path;
        let n = self.entries.len();
        let mut i: usize = 0;
        while i < n
            invariant
                self.history_path == path,
                n == before.len(),
                present@.len() == n,
                self.entries@.len() == n,
                i <= n,
                forall|k: int| i <= k < n ==> self.entries@[k] == before[k],
                forall|k: int|
                    0 <= k < i ==> {
                        let a = before[k];
                        let b = #[trigger] self.entries@[k];
                        &&& b.id == a.id
                        &&& b.text == a.text
                        &&& b.timestamp == a.timestamp
                        &&& b.wav_path == (if a.wav_path is Some && !present@[k] {
                            None
                        } else {
                            a.wav_path
                        })
                    },
            decreases n - i,
        {
            if self.entries[i].wav_path.is_some() && !present[i] {
                let mut e = self.entries.remove(i);
                e.wav_path = None;
                self.entries.insert(i, e);
            }
            i = i + 1;
        }
    }
}

/// Whether a file in the recordings directory is a recording older than
/// the limit: a `.wav` file whose age (when known) exceeds it. Ages are in
/// nanoseconds.
pub fn is_expired_recording(file_name: &str, age_nanos: Option<u128>, max_age_nanos: u128) -> (r:
    bool)
    ensures
        r == (file_extension(file_name@) == Some("wav"@) && age_nanos is Some && age_nanos->0
            > max_age_nanos),
{
    let is_wav = has_wav_extension(file_name);
    match age_nanos {
        Some(a) => is_wav && a > max_age_nanos,
        None => false,
    }
}

fn has_wav_extension(name: &str) -> (r: bool)
    ensures
        r == (file_extension(name@) == Some("wav"@)),
{
    let n = name.unicode_len();
    let mut i: usize = n;
    while i > 1 && name.get_char(i - 1) != '.'
        invariant
            n == name@.len(),
            i <= n,
            forall|j: int| i <= j < n ==> name@[j] != '.',
        decreases i,
    {
        i = i - 1;
    }
    if i > 1 {
        let dot = i - 1;
        assert(0 < dot < name@.len() && name@[dot as int] == '.');
        let ghost c = choose|k: int|
            0 < k < name@.len() && name@[k] == '.' && forall|j: int|
                k < j < name@.len() ==> name@[j] != '.';
        assert(c == dot) by {
            if c < dot {
            } else if c > dot {
            }
        }
        let ext = name.substring_char(i, n);
        str_eq(ext, "wav")
    } else {
        assert forall|k: int| !(0 < k < name@.len() && name@[k] == '.') by {
            if 0 < k < name@.len() {
                assert(k >= i);
            }
        }
        false
    }
}

/// Copy a string.
fn copy_string(s: &String) -> (r: String)
    ensures
        r == *s,
{
    s.clone()
}

/// The history as clients receive it.
pub fn to_client_entries(entries: &[HistoryEntry]) -> (r: Vec<types::HistoryEntry>)
    ensures
        r@.len() == entries@.len(),
        forall|i: int|
            0 <= i < entries@.len() ==> {
                let a = entries@[i];
                let b = #[trigger] r@[i];
                b.id == a.id && b.text == a.text && b.timestamp == a.timestamp && b.wav_path
                    == a.wav_path
            },
{
    let mut out: Vec<types::HistoryEntry> = Vec::new();
    let mut i: usize = 0;
    while i < entries.len()
        invariant
            i <= entries@.len(),
            out@.len() == i,
            forall|k: int|
                0 <= k < i ==> {
                    let a = entries@[k];
                    let b = #[trigger] out@[k];
                    b.id == a.id && b.text == a.text && b.timestamp == a.timestamp && b.wav_path
                        == a.wav_path
                },
        decreases entries@.len() - i,
    {
        let e = &entries[i];
        out.push(
            types::HistoryEntry {
                id: copy_string(&e.id),
                text: copy_string(&e.text),
                timestamp: copy_string(&e.timestamp),
                wav_path: match &e.wav_path {
                    Some(p) => Some(copy_string(p)),
                    None => None,
                },
            },
        );
        i = i + 1;
    }
    out
}

/// Deleting an entry removes exactly one entry with that ID and keeps the
/// order of the others.
pub proof fn lemma_delete_keeps_others(entries: Seq<HistoryEntry>, i: int)
    requires
        0 <= i < entries.len(),
    ensures
        entries.remove(i).len() == entries.len() - 1,
        forall|k: int| 0 <= k < i ==> entries.remove(i)[k] == entries[k],
        forall|k: int| i <= k < entries.len() - 1 ==> entries.remove(i)[k] == entries[k + 1],
{
}

} // verus!
