//! Test mode: a launch mode that plays a directory of WAV files through
//! the system audio, presses and releases push-to-talk around each, and
//! waits for its transcription.
//!
//! Playback, sleeping and event delivery happen outside; this module holds
//! the flags, picks the files, and decides each step of a run from the
//! events that come back.

use vstd::prelude::*;
use vstd::string::*;
use crate::text::{
    eq_ignore_ascii_case, eq_ignore_ascii_case_spec, lemma_seq_lt_irreflexive,
    lemma_seq_lt_transitive, seq_lt, str_lt,
};

verus! {

/// Whether test mode is on, and whether a run is in progress.
pub struct TestModeFlags {
    test_mode_active: bool,
    test_run_active: bool,
}

impl TestModeFlags {
    pub closed spec fn spec_test_mode(&self) -> bool {
        self.test_mode_active
    }

    pub closed spec fn spec_run_active(&self) -> bool {
        self.test_run_active
    }

    /// Test mode off, no run in progress.
    pub fn new() -> (r: Self)
        ensures
            !r.spec_test_mode(),
            !r.spec_run_active(),
    {
        TestModeFlags { test_mode_active: false, test_run_active: false }
    }
}

/// Turn test mode on or off (once at startup, from `--test-mode`).
pub fn set_test_mode(flags: &mut TestModeFlags, active: bool)
    ensures
        final(flags).spec_test_mode() == active,
        final(flags).spec_run_active() == old(flags).spec_run_active(),
{
    flags.test_mode_active = active;
}

/// Whether test mode is on.
pub fn is_test_mode(flags: &TestModeFlags) -> (r: bool)
    ensures
        r == flags.spec_test_mode(),
{
    flags.test_mode_active
}

/// Whether a test run is in progress.
pub fn is_test_run_active(flags: &TestModeFlags) -> (r: bool)
    ensures
        r == flags.spec_run_active(),
{
    flags.test_run_active
}

/// Claiming the run: it succeeds exactly when none is in progress, and
/// afterwards one is; test mode is untouched.
pub open spec fn claims_run(before: TestModeFlags, after: TestModeFlags, claimed: bool) -> bool {
    &&& claimed == !before.spec_run_active()
    &&& after.spec_run_active()
    &&& after.spec_test_mode() == before.spec_test_mode()
}

/// Finishing the run: none is in progress afterwards; test mode is untouched.
pub open spec fn finishes_run(before: TestModeFlags, after: TestModeFlags) -> bool {
    &&& !after.spec_run_active()
    &&& after.spec_test_mode() == before.spec_test_mode()
}

/// Claim the run: false if one is already in progress.
fn try_start_test_run(flags: &mut TestModeFlags) -> (r: bool)
    ensures
        claims_run(*old(flags), *final(flags), r),
{
    if flags.test_run_active {
        false
    } else {
        flags.test_run_active = true;
        true
    }
}

/// Mark the current run as finished.
pub fn finish_test_run(flags: &mut TestModeFlags)
    ensures
        finishes_run(*old(flags), *final(flags)),
{
    flags.test_run_active = false;
}

/// Only one run at a time: after a run is claimed, claiming again fails and
/// the run stays in progress; once it is finished, the next claim succeeds.
pub proof fn lemma_one_run_at_a_time(
    f0: TestModeFlags,
    f1: TestModeFlags,
    r1: bool,
    f2: TestModeFlags,
    r2: bool,
    f3: TestModeFlags,
    f4: TestModeFlags,
    r4: bool,
)
    requires
        claims_run(f0, f1, r1),
        claims_run(f1, f2, r2),
        finishes_run(f2, f3),
        claims_run(f3, f4, r4),
    ensures
        !r2,
        f2.spec_run_active(),
        !f3.spec_run_active(),
        r4,
        f4.spec_run_active(),
        f4.spec_test_mode() == f0.spec_test_mode(),
{
}

/// Start a run: refused unless test mode is on and no run is in progress.
pub fn begin_test_run(flags: &mut TestModeFlags) -> (r: Result<(), String>)
    ensures
        !old(flags).spec_test_mode() ==> (r matches Err(e) && e@ == "Test mode is not active"@
            && *final(flags) == *old(flags)),
        old(flags).spec_test_mode() && old(flags).spec_run_active() ==> (r matches Err(e) && e@
            == "A test run is already in progress"@ && *final(flags) == *old(flags)),
        old(flags).spec_test_mode() && !old(flags).spec_run_active() ==> (r is Ok
            && final(flags).spec_run_active() && final(flags).spec_test_mode()),
{
    if !is_test_mode(flags) {
        return Err(String::from_str("Test mode is not active"));
    }
    if !try_start_test_run(flags) {
        return Err(String::from_str("A test run is already in progress"));
    }
    Ok(())
}

/// The extension of a file name as `Path::extension` gives it: the text
/// after the last dot, unless there is no dot or the only dot starts the name.
pub open spec fn file_extension(name: Seq<char>) -> Option<Seq<char>> {
    if exists|i: int| 0 < i < name.len() && name[i] == '.' {
        let i = choose|i: int|
            0 < i < name.len() && name[i] == '.' && forall|j: int|
                i < j < name.len() ==> name[j] != '.';
        Some(name.subrange(i + 1, name.len() as int))
    } else {
        None
    }
}

/// Whether a directory entry is a WAV file to play: a regular file whose
/// extension is `wav` in any case.
pub open spec fn is_wav_entry(name: Seq<char>, is_file: bool) -> bool {
    is_file && match file_extension(name) {
        Some(ext) => eq_ignore_ascii_case_spec(ext, "wav"@),
        None => false,
    }
}

/// Whether a directory entry is a WAV file to play.
pub fn is_wav_file(name: &str, is_file: bool) -> (r: bool)
    ensures
        r == is_wav_entry(name@, is_file),
{
    if !is_file {
        return false;
    }
    let n = name.unicode_len();
    let mut i: usize = n;
    while i > 1 && name.get_char(i - 1) != '.'
        invariant
            n == name@.len(),
            i <= n,
            forall|j: int| i <= j < n ==> name@[j] != '.',
        decreases i,
    {
        i = i - 1;
    }
    if i > 1 {
        let dot = i - 1;
        assert(0 < dot < name@.len() && name@[dot as int] == '.');
        let ghost c = choose|k: int|
            0 < k < name@.len() && name@[k] == '.' && forall|j: int|
                k < j < name@.len() ==> name@[j] != '.';
        assert(c == dot) by {
            if c < dot {
            } else if c > dot {
            }
        }
        let ext = name.substring_char(i, n);
        eq_ignore_ascii_case(ext, "wav")
    } else {
        assert forall|k: int| !(0 < k < name@.len() && name@[k] == '.') by {
            if 0 < k < name@.len() {
                assert(k >= i);
            }
        }
        false
    }
}

/// The views of some strings.
pub open spec fn string_views(v: Seq<String>) -> Seq<Seq<char>> {
    v.map_values(|s: String| s@)
}

/// The names of the WAV files of a directory listing, in order.
pub open spec fn wav_names(entries: Seq<(String, bool)>) -> Seq<Seq<char>>
    decreases entries.len(),
{
    if entries.len() == 0 {
        Seq::<Seq<char>>::empty()
    } else {
        let rest = wav_names(entries.drop_last());
        let e = entries.last();
        if is_wav_entry(e.0@, e.1) {
            rest.push(e.0@)
        } else {
            rest
        }
    }
}

/// Keep the WAV files of a directory listing (names and whether each entry
/// is a regular file), in order.
pub fn wav_files(entries: &Vec<(String, bool)>) -> (r: Vec<String>)
    ensures
        string_views(r@) == wav_names(entries@),
{
    let mut out: Vec<String> = Vec::new();
    let mut i: usize = 0;
    assert(string_views(out@) =~= wav_names(entries@.subrange(0, 0)));
    while i < entries.len()
        invariant
            i <= entries@.len(),
            string_views(out@) == wav_names(entries@.subrange(0, i as int)),
        decreases entries@.len() - i,
    {
        let ghost before = out@;
        let entry = &entries[i];
        let keep = is_wav_file(entry.0.as_str(), entry.1);
        assert(entries@.subrange(0, i + 1).drop_last() =~= entries@.subrange(0, i as int));
        assert(entries@.subrange(0, i + 1).last() == entries@[i as int]);
        if keep {
            out.push(entry.0.clone());
            assert(string_views(out@) =~= string_views(before).push(entries@[i as int].0@));
        }
        i = i + 1;
    }
    assert(entries@.subrange(0, entries@.len() as int) =~= entries@);
    out
}

/// Names in ascending order (code point by code point, as paths in one
/// directory compare).
pub open spec fn names_sorted(s: Seq<Seq<char>>) -> bool {
    forall|i: int, j: int| 0 <= i < j < s.len() ==> !seq_lt(#[trigger] s[j], #[trigger] s[i])
}

/// Insert `x` before the first name that sorts after it.
fn insert_sorted_name(v: &mut Vec<String>, x: String)
    requires
        names_sorted(string_views(old(v)@)),
    ensures
        names_sorted(string_views(final(v)@)),
        exists|p: int|
            0 <= p <= old(v)@.len() && string_views(final(v)@) == string_views(old(v)@).insert(
                p,
                x@,
            ),
{
    let ghost before = string_views(v@);
    let mut p: usize = 0;
    let mut found = false;
    while p < v.len() && !found
        invariant
            0 <= p <= v@.len(),
            string_views(v@) == before,
            v@.len() == before.len(),
            names_sorted(before),
            found ==> p < v@.len() && seq_lt(x@, before[p as int]),
            forall|i: int| 0 <= i < p ==> !seq_lt(x@, #[trigger] before[i]),
        decreases v@.len() - p, (if found { 0int } else { 1int }),
    {
        assert(before[p as int] == v@[p as int]@);
        if str_lt(x.as_str(), v[p].as_str()) {
            found = true;
        } else {
            p = p + 1;
        }
    }
    let ghost xv = x@;
    v.insert(p, x);
    proof {
        let after = string_views(v@);
        assert(after =~= before.insert(p as int, xv));
        assert forall|i: int, j: int| 0 <= i < j < after.len() implies !seq_lt(
            #[trigger] after[j],
            #[trigger] after[i],
        ) by {
            if j < p {
                assert(after[i] == before[i] && after[j] == before[j]);
            } else if j == p {
                assert(after[i] == before[i]);
            } else if i < p {
                assert(after[i] == before[i] && after[j] == before[j - 1]);
            } else if i == p {
                assert(after[j] == before[j - 1]);
                assert(p < before.len());
                assert(seq_lt(xv, before[p as int]));
                if seq_lt(before[j - 1], xv) {
                    lemma_seq_lt_transitive(before[j - 1], xv, before[p as int]);
                    if p < j - 1 {
                    } else {
                        lemma_seq_lt_irreflexive(before[p as int]);
                    }
                }
            } else {
                assert(after[i] == before[i - 1] && after[j] == before[j - 1]);
            }
        }
    }
}

/// Sort names in ascending order, keeping every occurrence.
pub fn sort_names(names: Vec<String>) -> (r: Vec<String>)
    ensures
        string_views(r@).to_multiset() == string_views(names@).to_multiset(),
        names_sorted(string_views(r@)),
{
    broadcast use vstd::seq_lib::to_multiset_insert, vstd::seq_lib::to_multiset_build;

    let ghost all = string_views(names@);
    let mut res: Vec<String> = Vec::new();
    let mut i: usize = 0;
    assert(string_views(res@) =~= all.subrange(0, 0));
    while i < names.len()
        invariant
            0 <= i <= names@.len(),
            all == string_views(names@),
            names_sorted(string_views(res@)),
            string_views(res@).to_multiset() == all.subrange(0, i as int).to_multiset(),
        decreases names@.len() - i,
    {
        let x = names[i].clone();
        let ghost before = string_views(res@);
        insert_sorted_name(&mut res, x);
        proof {
            let p = choose|p: int|
                0 <= p <= before.len() && string_views(res@) == before.insert(p, names@[i as int]@);
            vstd::seq_lib::to_multiset_insert(before, p, names@[i as int]@);
            assert(all.subrange(0, i + 1) =~= all.subrange(0, i as int).push(all[i as int]));
            vstd::seq_lib::to_multiset_build(all.subrange(0, i as int), all[i as int]);
        }
        i = i + 1;
    }
    assert(all.subrange(0, names@.len() as int) =~= all);
    res
}

/// Accept the directory listing of a run: a listing error or a directory
/// without WAV files ends the run with an error; otherwise the WAV files
/// are returned sorted by name, the order in which they are played.
pub fn accept_listing(flags: &mut TestModeFlags, listing: Result<Vec<(String, bool)>, String>) -> (r:
    Result<Vec<String>, String>)
    ensures
        final(flags).spec_test_mode() == old(flags).spec_test_mode(),
        listing is Err ==> (r matches Err(m) && m@ == "Failed to read directory: "@
            + listing->Err_0@ && !final(flags).spec_run_active()),
        listing is Ok && wav_names(listing->Ok_0@).len() == 0 ==> (r matches Err(m) && m@
            == "No WAV files found in the selected directory"@ && !final(flags).spec_run_active()),
        listing is Ok && wav_names(listing->Ok_0@).len() > 0 ==> (r matches Ok(files)
            && string_views(files@).to_multiset() == wav_names(listing->Ok_0@).to_multiset()
            && names_sorted(string_views(files@)) && *final(flags) == *old(flags)),
{
    match listing {
        Err(e) => {
            finish_test_run(flags);
            Err(String::from_str("Failed to read directory: ").concat(e.as_str()))
        },
        Ok(entries) => {
            let files = wav_files(&entries);
            if files.len() == 0 {
                assert(string_views(files@).len() == 0);
                finish_test_run(flags);
                Err(String::from_str("No WAV files found in the selected directory"))
            } else {
                Ok(sort_names(files))
            }
        },
    }
}

/// What happened to one file of a run.
#[derive(Debug, Clone, Copy, PartialEq, Eq, Structural)]
pub enum FileOutcome {
    /// A transcription came back
    Transcribed,
    /// Speech ended but Whisper returned nothing
    NoSpeech,
    /// Nothing came back before the deadline
    TimedOut,
    /// Playback could not start
    Skipped,
}

/// Counts over a run.
#[derive(Debug, Clone, Copy, PartialEq, Eq, Structural)]
pub struct TestRunTally {
    pub success_count: u32,
    pub timeout_count: u32,
    pub skip_count: u32,
}

impl TestRunTally {
    pub fn new() -> (r: Self)
        ensures
            r == (TestRunTally { success_count: 0, timeout_count: 0, skip_count: 0 }),
    {
        TestRunTally { success_count: 0, timeout_count: 0, skip_count: 0 }
    }

    /// Count one file's outcome; a no-speech result counts as neither a
    /// success nor a timeout.
    pub fn record(&mut self, outcome: FileOutcome)
        requires
            old(self).success_count < u32::MAX,
            old(self).timeout_count < u32::MAX,
            old(self).skip_count < u32::MAX,
        ensures
            *final(self) == match outcome {
                FileOutcome::Transcribed => TestRunTally {
                    success_count: (old(self).success_count + 1) as u32,
                    ..*old(self)
                },
                FileOutcome::TimedOut => TestRunTally {
                    timeout_count: (old(self).timeout_count + 1) as u32,
                    ..*old(self)
                },
                FileOutcome::Skipped => TestRunTally {
                    skip_count: (old(self).skip_count + 1) as u32,
                    ..*old(self)
                },
                FileOutcome::NoSpeech => *old(self),
            },
    {
        match outcome {
            FileOutcome::Transcribed => self.success_count = self.success_count + 1,
            FileOutcome::TimedOut => self.timeout_count = self.timeout_count + 1,
            FileOutcome::Skipped => self.skip_count = self.skip_count + 1,
            FileOutcome::NoSpeech => {},
        }
    }
}

/// What the event channel gave while waiting for a file's transcription.
#[derive(Debug, Clone, Copy, PartialEq, Eq, Structural)]
pub enum WaitEvent {
    TranscriptionComplete,
    SpeechEnded,
    /// Any other event
    Other,
    /// No event pending
    Empty,
    /// Some events were missed
    Lagged,
    /// The channel is closed
    Closed,
}

/// The next step of the wait.
#[derive(Debug, Clone, Copy, PartialEq, Eq, Structural)]
pub enum WaitAction {
    /// Read the next event at once
    KeepWaiting,
    /// Sleep 50ms, then read again
    SleepAndPoll,
    /// Speech ended: wait up to 10 seconds more for the transcription
    WaitForTranscription,
    /// The file is done
    Finish,
    /// Abandon the whole run
    Abort,
}

/// What the wait for one file has seen so far.
#[derive(Debug, Clone, Copy, PartialEq, Eq, Structural)]
pub struct WaitState {
    pub got_transcription: bool,
    pub got_speech_ended: bool,
}

impl WaitState {
    pub fn new() -> (r: Self)
        ensures
            !r.got_transcription,
            !r.got_speech_ended,
    {
        WaitState { got_transcription: false, got_speech_ended: false }
    }

    /// Take one event while waiting (within the 30 second deadline).
    pub fn step(&mut self, event: WaitEvent) -> (r: WaitAction)
        ensures
            event == WaitEvent::TranscriptionComplete ==> r == WaitAction::Finish
                && *final(self) == (WaitState { got_transcription: true, ..*old(self) }),
            event == WaitEvent::SpeechEnded ==> r == WaitAction::KeepWaiting
                && *final(self) == (WaitState { got_speech_ended: true, ..*old(self) }),
            event == WaitEvent::Empty ==> *final(self) == *old(self) && r == (if old(self).got_speech_ended {
                WaitAction::WaitForTranscription
            } else {
                WaitAction::SleepAndPoll
            }),
            event == WaitEvent::Closed ==> r == WaitAction::Abort && *final(self) == *old(self),
            (event == WaitEvent::Other || event == WaitEvent::Lagged) ==> r == WaitAction::KeepWaiting
                && *final(self) == *old(self),
    {
        match event {
            WaitEvent::TranscriptionComplete => {
                self.got_transcription = true;
                WaitAction::Finish
            },
            WaitEvent::SpeechEnded => {
                self.got_speech_ended = true;
                WaitAction::KeepWaiting
            },
            WaitEvent::Empty => if self.got_speech_ended {
                WaitAction::WaitForTranscription
            } else {
                WaitAction::SleepAndPoll
            },
            WaitEvent::Closed => WaitAction::Abort,
            _ => WaitAction::KeepWaiting,
        }
    }

    /// The extra wait after speech ended is over; `received` tells whether
    /// a transcription came back. The file is then done.
    pub fn after_extra_wait(&mut self, received: bool)
        ensures
            final(self).got_transcription == (old(self).got_transcription || received),
            final(self).got_speech_ended == old(self).got_speech_ended,
    {
        if received {
            self.got_transcription = true;
        }
    }

    /// The outcome of the file once the wait is over.
    pub fn outcome(&self) -> (r: FileOutcome)
        ensures
            r == (if self.got_transcription {
                FileOutcome::Transcribed
            } else if !self.got_speech_ended {
                FileOutcome::TimedOut
            } else {
                FileOutcome::NoSpeech
            }),
    {
        if self.got_transcription {
            FileOutcome::Transcribed
        } else if !self.got_speech_ended {
            FileOutcome::TimedOut
        } else {
            FileOutcome::NoSpeech
        }
    }
}

/// The next step of the extra wait for a transcription after speech ended.
#[derive(Debug, Clone, Copy, PartialEq, Eq, Structural)]
pub enum ExtraWaitAction {
    /// The transcription came back
    Received,
    /// Read the next event at once
    KeepWaiting,
    /// Sleep 50ms, then read again
    SleepAndPoll,
    /// The channel closed: no transcription
    GiveUp,
}

/// Take one event during the extra wait.
pub fn extra_wait_step(event: WaitEvent) -> (r: ExtraWaitAction)
    ensures
        r == match event {
            WaitEvent::TranscriptionComplete => ExtraWaitAction::Received,
            WaitEvent::Empty => ExtraWaitAction::SleepAndPoll,
            WaitEvent::Closed => ExtraWaitAction::GiveUp,
            _ => ExtraWaitAction::KeepWaiting,
        },
{
    match event {
        WaitEvent::TranscriptionComplete => ExtraWaitAction::Received,
        WaitEvent::Empty => ExtraWaitAction::SleepAndPoll,
        WaitEvent::Closed => ExtraWaitAction::GiveUp,
        _ => ExtraWaitAction::KeepWaiting,
    }
}

/// Whether to pause two seconds after file `idx` of `total`: after every
/// file but the last.
pub fn pause_after(idx: usize, total: usize) -> (r: bool)
    requires
        idx < total,
    ensures
        r == (idx + 1 < total),
{
    idx + 1 < total
}

} // verus!
