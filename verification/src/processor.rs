//! Speech detection decisions: onset, hold, grace periods and word breaks,
//! driven by per-frame classifications of the audio.
//!
//! The acoustic features (amplitude, zero-crossing rate, spectral centroid) are
//! measured by the caller; this module decides what they mean over time.

use vstd::prelude::*;
use crate::engine::{frontend_event_name_spec, EngineEventKind};

verus! {

/// Speech state change detected by the speech detector.
#[derive(Debug, Clone, Copy, PartialEq, Eq, Structural)]
pub enum SpeechStateChange {
    /// No change in speech state
    Unchanged,
    /// Speech started with lookback sample count
    Started { lookback_samples: usize },
    /// Speech ended with duration in milliseconds
    Ended { duration_ms: u64 },
}

/// Word break event detected during speech.
#[derive(Debug, Clone, Copy, PartialEq, Eq, Structural)]
pub struct WordBreakEvent {
    /// Offset from speech start in milliseconds
    pub offset_ms: u32,
    /// Duration of the gap in milliseconds
    pub gap_duration_ms: u32,
}

/// Event payload for word break detection events.
#[derive(Debug, Clone, Copy, PartialEq, Eq, Structural)]
pub struct WordBreakPayload {
    /// Timestamp offset in milliseconds from speech start
    pub offset_ms: u32,
    /// Duration of the detected gap in milliseconds
    pub gap_duration_ms: u32,
}

/// A single column of spectrogram data ready for rendering.
pub struct SpectrogramColumn {
    /// RGB triplets for each pixel row (height * 3 bytes)
    pub colors: Vec<u8>,
}

/// Bound on any frame length or timing threshold, so that sums of two fit in `u32`.
/// A frame of 2^31 samples is over twelve hours of audio at 48 kHz, far beyond
/// any buffer a capture callback hands over.
pub const COUNT_BOUND: u32 = 0x8000_0000;

/// Bound on the speech sample counter, so that converting it to milliseconds fits in `u64`.
/// At 48 kHz, 2^52 samples is close to three thousand years of continuous speech.
pub const SPEECH_SAMPLES_BOUND: u64 = 0x10_0000_0000_0000;

/// Time thresholds of the detector, in samples.
#[derive(Debug, Clone, Copy, PartialEq, Eq, Structural)]
pub struct SpeechTimings {
    pub sample_rate: u32,
    /// Voiced onset time before confirming speech (80ms)
    pub voiced_onset_samples: u32,
    /// Whisper onset time before confirming speech (120ms)
    pub whisper_onset_samples: u32,
    /// Hold time before speech is considered ended (300ms)
    pub hold_samples: u32,
    /// Grace period: brief dips during onset don't reset it (30ms)
    pub onset_grace_samples: u32,
    /// Shortest gap counted as a word break (15ms)
    pub min_word_break_samples: u32,
    /// Longest gap counted as a word break (200ms)
    pub max_word_break_samples: u32,
    /// Window for the recent speech amplitude average (100ms)
    pub recent_speech_window_samples: u32,
    /// Lookback buffer length (200ms)
    pub lookback_capacity: usize,
}

/// `ms` milliseconds of audio at `sample_rate`, in samples (rounded down).
pub open spec fn ms_to_samples(sample_rate: u32, ms: int) -> int {
    (sample_rate as int * ms) / 1000
}

/// Samples converted to milliseconds (rounded down).
pub open spec fn samples_to_ms(sample_rate: u32, samples: int) -> int {
    samples * 1000 / (sample_rate as int)
}

impl SpeechTimings {
    /// The default thresholds for a sample rate.
    pub fn with_defaults(sample_rate: u32) -> (r: Self)
        ensures
            r.sample_rate == sample_rate,
            r.voiced_onset_samples == ms_to_samples(sample_rate, 80),
            r.whisper_onset_samples == ms_to_samples(sample_rate, 120),
            r.hold_samples == ms_to_samples(sample_rate, 300),
            r.onset_grace_samples == ms_to_samples(sample_rate, 30),
            r.min_word_break_samples == ms_to_samples(sample_rate, 15),
            r.max_word_break_samples == ms_to_samples(sample_rate, 200),
            r.recent_speech_window_samples == ms_to_samples(sample_rate, 100),
            r.lookback_capacity == ms_to_samples(sample_rate, 200),
    {
        let sr = sample_rate as u64;
        SpeechTimings {
            sample_rate,
            voiced_onset_samples: (sr * 80 / 1000) as u32,
            whisper_onset_samples: (sr * 120 / 1000) as u32,
            hold_samples: (sr * 300 / 1000) as u32,
            onset_grace_samples: (sr * 30 / 1000) as u32,
            min_word_break_samples: (sr * 15 / 1000) as u32,
            max_word_break_samples: (sr * 200 / 1000) as u32,
            recent_speech_window_samples: (sr * 100 / 1000) as u32,
            lookback_capacity: (sr * 200 / 1000) as usize,
        }
    }

    pub open spec fn wf(&self) -> bool {
        &&& self.sample_rate > 0
        &&& self.voiced_onset_samples < COUNT_BOUND
        &&& self.whisper_onset_samples < COUNT_BOUND
        &&& self.hold_samples < COUNT_BOUND
        &&& self.onset_grace_samples < COUNT_BOUND
    }

    /// Convert a sample count to milliseconds.
    pub fn samples_to_ms(&self, samples: u64) -> (r: u64)
        requires
            self.sample_rate > 0,
            samples <= SPEECH_SAMPLES_BOUND,
        ensures
            r == samples_to_ms(self.sample_rate, samples as int),
    {
        samples * 1000 / (self.sample_rate as u64)
    }
}

/// How one frame of audio was classified by its acoustic features.
#[derive(Debug, Clone, Copy, PartialEq, Eq, Structural)]
pub struct FrameFeatures {
    /// Number of samples in the frame
    pub len: u32,
    /// High zero-crossing rate and high centroid: a click or similar transient
    pub is_transient: bool,
    /// Features match voiced speech
    pub is_voiced: bool,
    /// Features match whispered speech
    pub is_whisper: bool,
    /// Amplitude is below the word-break fraction of the recent speech average
    /// (and that average is positive)
    pub below_word_break_threshold: bool,
}

/// What the caller must do after a frame, besides reading the new state.
#[derive(Debug, Clone, Copy, PartialEq, Eq, Structural)]
pub struct StepOutcome {
    /// Speech was just confirmed: find the lookback start and report it with
    /// `mark_speech_started`
    pub speech_started: bool,
    /// Fold this frame's amplitude into the recent speech average
    pub update_amplitude_average: bool,
    /// Speech ended: clear the recent speech average
    pub reset_amplitude_average: bool,
}

/// The speech detector's decision state.
#[derive(Debug, Clone, Copy, PartialEq, Eq, Structural)]
pub struct SpeechStateMachine {
    pub timings: SpeechTimings,
    /// Speech is confirmed and ongoing
    pub is_speaking: bool,
    pub is_pending_voiced: bool,
    pub is_pending_whisper: bool,
    pub voiced_onset_count: u32,
    pub whisper_onset_count: u32,
    pub voiced_grace_count: u32,
    pub whisper_grace_count: u32,
    /// Samples of non-speech since the last speech-like frame
    pub silence_sample_count: u32,
    /// Samples since speech was confirmed (including the onset)
    pub speech_sample_count: u64,
    /// Whether the first frame has been seen
    pub initialized: bool,
    pub in_word_break: bool,
    pub word_break_sample_count: u32,
    pub word_break_start_speech_samples: u64,
    /// Whether the last frame was a transient (for metrics)
    pub last_is_transient: bool,
    /// Whether the last frame lies in a word break of valid length (for metrics)
    pub last_is_word_break: bool,
    /// Lookback offset reported when speech was confirmed in the last frame
    pub last_lookback_offset_ms: Option<u32>,
    /// State change detected in the last frame
    pub last_state_change: SpeechStateChange,
    /// Word break detected in the last frame
    pub last_word_break_event: Option<WordBreakEvent>,
}

/// Clear all onset tracking.
pub open spec fn reset_onset(s: SpeechStateMachine) -> SpeechStateMachine {
    SpeechStateMachine {
        is_pending_voiced: false,
        is_pending_whisper: false,
        voiced_onset_count: 0,
        whisper_onset_count: 0,
        voiced_grace_count: 0,
        whisper_grace_count: 0,
        ..s
    }
}

/// Confirm speech after an onset of `count` samples.
pub open spec fn confirm_speech(s: SpeechStateMachine, count: u32) -> SpeechStateMachine {
    reset_onset(SpeechStateMachine { is_speaking: true, speech_sample_count: count as u64, ..s })
}

/// A speech-like frame during confirmed speech: extend the speech, and close
/// a pending word break, reporting it if its length is in range.
pub open spec fn speaking_frame(s: SpeechStateMachine, len: u32) -> SpeechStateMachine {
    let s1 = SpeechStateMachine { speech_sample_count: (s.speech_sample_count + len) as u64, ..s };
    if s.in_word_break {
        let t = s.timings;
        let event = if t.min_word_break_samples <= s.word_break_sample_count
            <= t.max_word_break_samples {
            Some(
                WordBreakEvent {
                    offset_ms: samples_to_ms(
                        t.sample_rate,
                        s.word_break_start_speech_samples as int,
                    ) as u32,
                    gap_duration_ms: samples_to_ms(
                        t.sample_rate,
                        s.word_break_sample_count as int,
                    ) as u32,
                },
            )
        } else {
            None
        };
        SpeechStateMachine {
            in_word_break: false,
            word_break_sample_count: 0,
            last_word_break_event: event,
            ..s1
        }
    } else {
        s1
    }
}

/// A speech-like frame before speech is confirmed: accumulate the voiced and
/// whisper onsets (restarting a stopped one at this frame), and confirm speech
/// when an onset reaches its threshold, voiced first.
pub open spec fn onset_frame(s: SpeechStateMachine, f: FrameFeatures) -> SpeechStateMachine {
    let t = s.timings;
    let sv = if f.is_voiced {
        SpeechStateMachine {
            voiced_grace_count: 0,
            is_pending_voiced: true,
            voiced_onset_count: if s.is_pending_voiced {
                (s.voiced_onset_count + f.len) as u32
            } else {
                f.len
            },
            ..s
        }
    } else {
        s
    };
    if f.is_voiced && sv.voiced_onset_count >= t.voiced_onset_samples {
        confirm_speech(sv, sv.voiced_onset_count)
    } else if f.is_whisper {
        let sw = SpeechStateMachine {
            whisper_grace_count: 0,
            is_pending_whisper: true,
            whisper_onset_count: if sv.is_pending_whisper {
                (sv.whisper_onset_count + f.len) as u32
            } else {
                f.len
            },
            ..sv
        };
        if sw.whisper_onset_count >= t.whisper_onset_samples {
            confirm_speech(sw, sw.whisper_onset_count)
        } else {
            sw
        }
    } else {
        sv
    }
}

/// A frame without speech features: run the onset grace periods down, and
/// during speech count silence, track word breaks, and end speech once the
/// hold time has passed.
pub open spec fn silent_frame(s: SpeechStateMachine, f: FrameFeatures) -> SpeechStateMachine {
    let t = s.timings;
    let sv = if s.is_pending_voiced {
        let g = (s.voiced_grace_count + f.len) as u32;
        if g >= t.onset_grace_samples {
            SpeechStateMachine {
                is_pending_voiced: false,
                voiced_onset_count: 0,
                voiced_grace_count: 0,
                ..s
            }
        } else {
            SpeechStateMachine { voiced_grace_count: g, ..s }
        }
    } else {
        s
    };
    let sw = if sv.is_pending_whisper {
        let g = (sv.whisper_grace_count + f.len) as u32;
        if g >= t.onset_grace_samples {
            SpeechStateMachine {
                is_pending_whisper: false,
                whisper_onset_count: 0,
                whisper_grace_count: 0,
                ..sv
            }
        } else {
            SpeechStateMachine { whisper_grace_count: g, ..sv }
        }
    } else {
        sv
    };
    if sw.is_speaking {
        let s1 = SpeechStateMachine {
            silence_sample_count: (sw.silence_sample_count + f.len) as u32,
            ..sw
        };
        let s2 = if f.below_word_break_threshold {
            let s3 = if !s1.in_word_break {
                SpeechStateMachine {
                    in_word_break: true,
                    word_break_sample_count: f.len,
                    word_break_start_speech_samples: s1.speech_sample_count,
                    ..s1
                }
            } else {
                SpeechStateMachine {
                    word_break_sample_count: (s1.word_break_sample_count + f.len) as u32,
                    ..s1
                }
            };
            SpeechStateMachine {
                last_is_word_break: t.min_word_break_samples <= s3.word_break_sample_count
                    <= t.max_word_break_samples,
                ..s3
            }
        } else {
            s1
        };
        if s2.silence_sample_count >= t.hold_samples {
            SpeechStateMachine {
                is_speaking: false,
                speech_sample_count: 0,
                in_word_break: false,
                word_break_sample_count: 0,
                word_break_start_speech_samples: 0,
                last_is_word_break: false,
                last_word_break_event: None,
                last_state_change: SpeechStateChange::Ended {
                    duration_ms: samples_to_ms(t.sample_rate, s2.speech_sample_count as int) as u64,
                },
                ..s2
            }
        } else {
            s2
        }
    } else {
        sw
    }
}

/// The detector after one frame.
pub open spec fn speech_step(s: SpeechStateMachine, f: FrameFeatures) -> SpeechStateMachine {
    let s0 = SpeechStateMachine {
        last_state_change: SpeechStateChange::Unchanged,
        last_word_break_event: None,
        last_is_transient: f.is_transient,
        last_lookback_offset_ms: None,
        last_is_word_break: false,
        ..s
    };
    if !s.initialized {
        SpeechStateMachine { initialized: true, ..s0 }
    } else if f.is_transient && !s.is_speaking {
        reset_onset(s0)
    } else {
        let s1 = if f.is_transient {
            reset_onset(s0)
        } else {
            s0
        };
        if f.is_voiced || f.is_whisper {
            let s2 = SpeechStateMachine { silence_sample_count: 0, ..s1 };
            if s2.is_speaking {
                speaking_frame(s2, f.len)
            } else {
                onset_frame(s2, f)
            }
        } else {
            silent_frame(s1, f)
        }
    }
}

impl SpeechStateMachine {
    /// Counters stay below their thresholds, so no sum overflows.
    pub open spec fn wf(&self) -> bool {
        let t = self.timings;
        &&& t.wf()
        &&& self.voiced_onset_count <= t.voiced_onset_samples
        &&& self.whisper_onset_count <= t.whisper_onset_samples
        &&& self.voiced_grace_count <= t.onset_grace_samples
        &&& self.whisper_grace_count <= t.onset_grace_samples
        &&& self.silence_sample_count < COUNT_BOUND + t.hold_samples
        &&& (self.is_speaking ==> self.silence_sample_count <= t.hold_samples)
        &&& (!self.in_word_break ==> self.word_break_sample_count == 0)
        &&& (self.in_word_break ==> self.is_speaking && self.word_break_sample_count
            <= self.silence_sample_count)
        &&& self.speech_sample_count <= SPEECH_SAMPLES_BOUND
        &&& self.word_break_start_speech_samples <= self.speech_sample_count
        &&& (!self.is_speaking ==> self.word_break_start_speech_samples == 0)
    }

    /// A detector that has seen no audio.
    pub fn new(timings: SpeechTimings) -> (r: Self)
        requires
            timings.wf(),
        ensures
            r.wf(),
            r.timings == timings,
            !r.is_speaking,
            !r.initialized,
            r.last_state_change == SpeechStateChange::Unchanged,
            r.last_word_break_event is None,
    {
        SpeechStateMachine {
            timings,
            is_speaking: false,
            is_pending_voiced: false,
            is_pending_whisper: false,
            voiced_onset_count: 0,
            whisper_onset_count: 0,
            voiced_grace_count: 0,
            whisper_grace_count: 0,
            silence_sample_count: 0,
            speech_sample_count: 0,
            initialized: false,
            in_word_break: false,
            word_break_sample_count: 0,
            word_break_start_speech_samples: 0,
            last_is_transient: false,
            last_is_word_break: false,
            last_lookback_offset_ms: None,
            last_state_change: SpeechStateChange::Unchanged,
            last_word_break_event: None,
        }
    }

    fn reset_onset_state(&mut self)
        ensures
            *final(self) == reset_onset(*old(self)),
    {
        self.is_pending_voiced = false;
        self.is_pending_whisper = false;
        self.voiced_onset_count = 0;
        self.whisper_onset_count = 0;
        self.voiced_grace_count = 0;
        self.whisper_grace_count = 0;
    }

    /// Advance the detector by one classified frame. The frame length and the
    /// running speech count stay under `COUNT_BOUND` and `SPEECH_SAMPLES_BOUND`,
    /// which real audio never reaches.
    pub fn step(&mut self, f: FrameFeatures) -> (r: StepOutcome)
        requires
            old(self).wf(),
            f.len < COUNT_BOUND,
            old(self).speech_sample_count + f.len <= SPEECH_SAMPLES_BOUND,
        ensures
            final(self).wf(),
            *final(self) == speech_step(*old(self), f),
            r.speech_started == (!old(self).is_speaking && final(self).is_speaking),
            r.update_amplitude_average == (old(self).initialized && old(self).is_speaking && (
            f.is_voiced || f.is_whisper)),
            r.reset_amplitude_average == (old(self).is_speaking && !final(self).is_speaking),
            final(self).last_word_break_event matches Some(e) ==> {
                &&& old(self).in_word_break
                &&& old(self).timings.min_word_break_samples <= old(self).word_break_sample_count
                &&& old(self).word_break_sample_count <= old(self).timings.max_word_break_samples
                &&& e.gap_duration_ms == (old(self).word_break_sample_count as int * 1000
                    / old(self).timings.sample_rate as int) as u32
            },
    {
        proof {
            lemma_word_break_gap_in_range(*old(self), f);
        }
        let ghost s = *self;
        self.last_state_change = SpeechStateChange::Unchanged;
        self.last_word_break_event = None;
        self.last_is_transient = f.is_transient;
        self.last_lookback_offset_ms = None;
        self.last_is_word_break = false;
        let none = StepOutcome {
            speech_started: false,
            update_amplitude_average: false,
            reset_amplitude_average: false,
        };
        if !self.initialized {
            self.initialized = true;
            return none;
        }
        if f.is_transient {
            self.reset_onset_state();
            if !self.is_speaking {
                return none;
            }
        }
        let t = self.timings;
        if f.is_voiced || f.is_whisper {
            self.silence_sample_count = 0;
            if self.is_speaking {
                self.speech_sample_count = self.speech_sample_count + f.len as u64;
                if self.in_word_break {
                    if t.min_word_break_samples <= self.word_break_sample_count
                        && self.word_break_sample_count <= t.max_word_break_samples {
                        let gap_duration_ms = t.samples_to_ms(
                            self.word_break_sample_count as u64,
                        ) as u32;
                        let offset_ms = t.samples_to_ms(self.word_break_start_speech_samples) as u32;
                        self.last_word_break_event = Some(
                            WordBreakEvent { offset_ms, gap_duration_ms },
                        );
                    }
                    self.in_word_break = false;
                    self.word_break_sample_count = 0;
                }
                return StepOutcome {
                    speech_started: false,
                    update_amplitude_average: true,
                    reset_amplitude_average: false,
                };
            }
            if f.is_voiced {
                self.voiced_grace_count = 0;
                if !self.is_pending_voiced {
                    self.is_pending_voiced = true;
                    self.voiced_onset_count = f.len;
                } else {
                    self.voiced_onset_count = self.voiced_onset_count + f.len;
                }
                if self.voiced_onset_count >= t.voiced_onset_samples {
                    self.is_speaking = true;
                    self.speech_sample_count = self.voiced_onset_count as u64;
                    self.reset_onset_state();
                    return StepOutcome {
                        speech_started: true,
                        update_amplitude_average: false,
                        reset_amplitude_average: false,
                    };
                }
            }
            if f.is_whisper {
                self.whisper_grace_count = 0;
                if !self.is_pending_whisper {
                    self.is_pending_whisper = true;
                    self.whisper_onset_count = f.len;
                } else {
                    self.whisper_onset_count = self.whisper_onset_count + f.len;
                }
                if !self.is_speaking && self.whisper_onset_count >= t.whisper_onset_samples {
                    self.is_speaking = true;
                    self.speech_sample_count = self.whisper_onset_count as u64;
                    self.reset_onset_state();
                    return StepOutcome {
                        speech_started: true,
                        update_amplitude_average: false,
                        reset_amplitude_average: false,
                    };
                }
            }
            return none;
        }
        if self.is_pending_voiced {
            self.voiced_grace_count = self.voiced_grace_count + f.len;
            if self.voiced_grace_count >= t.onset_grace_samples {
                self.is_pending_voiced = false;
                self.voiced_onset_count = 0;
                self.voiced_grace_count = 0;
            }
        }
        if self.is_pending_whisper {
            self.whisper_grace_count = self.whisper_grace_count + f.len;
            if self.whisper_grace_count >= t.onset_grace_samples {
                self.is_pending_whisper = false;
                self.whisper_onset_count = 0;
                self.whisper_grace_count = 0;
            }
        }
        if self.is_speaking {
            self.silence_sample_count = self.silence_sample_count + f.len;
            if f.below_word_break_threshold {
                if !self.in_word_break {
                    self.in_word_break = true;
                    self.word_break_sample_count = f.len;
                    self.word_break_start_speech_samples = self.speech_sample_count;
                } else {
                    self.word_break_sample_count = self.word_break_sample_count + f.len;
                }
                if t.min_word_break_samples <= self.word_break_sample_count
                    && self.word_break_sample_count <= t.max_word_break_samples {
                    self.last_is_word_break = true;
                }
            }
            if self.silence_sample_count >= t.hold_samples {
                let duration_ms = t.samples_to_ms(self.speech_sample_count);
                self.is_speaking = false;
                self.speech_sample_count = 0;
                self.in_word_break = false;
                self.word_break_sample_count = 0;
                self.word_break_start_speech_samples = 0;
                self.last_is_word_break = false;
                self.last_word_break_event = None;
                self.last_state_change = SpeechStateChange::Ended { duration_ms };
                return StepOutcome {
                    speech_started: false,
                    update_amplitude_average: false,
                    reset_amplitude_average: true,
                };
            }
        }
        none
    }

    /// Record where the speech confirmed in the last step truly began:
    /// `lookback_samples` samples of audio, `lookback_offset_ms` back.
    pub fn mark_speech_started(&mut self, lookback_samples: usize, lookback_offset_ms: u32)
        ensures
            *final(self) == (SpeechStateMachine {
                last_state_change: SpeechStateChange::Started { lookback_samples },
                last_lookback_offset_ms: Some(lookback_offset_ms),
                ..*old(self)
            }),
    {
        self.last_state_change = SpeechStateChange::Started { lookback_samples };
        self.last_lookback_offset_ms = Some(lookback_offset_ms);
    }

    /// Get the last speech state change and reset it to `Unchanged`.
    pub fn take_state_change(&mut self) -> (r: SpeechStateChange)
        ensures
            r == old(self).last_state_change,
            *final(self) == (SpeechStateMachine {
                last_state_change: SpeechStateChange::Unchanged,
                ..*old(self)
            }),
    {
        let r = self.last_state_change;
        self.last_state_change = SpeechStateChange::Unchanged;
        r
    }

    /// Get the last speech state change without resetting it.
    pub fn peek_state_change(&self) -> (r: &SpeechStateChange)
        ensures
            *r == self.last_state_change,
    {
        &self.last_state_change
    }

    /// Take the last word break event, resetting it to `None`.
    pub fn take_word_break_event(&mut self) -> (r: Option<WordBreakEvent>)
        ensures
            r == old(self).last_word_break_event,
            *final(self) == (SpeechStateMachine { last_word_break_event: None, ..*old(self) }),
    {
        let r = self.last_word_break_event;
        self.last_word_break_event = None;
        r
    }

    /// Peek at the last word break event without taking it.
    pub fn peek_word_break_event(&self) -> (r: Option<&WordBreakEvent>)
        ensures
            match r {
                Some(e) => self.last_word_break_event == Some(*e),
                None => self.last_word_break_event is None,
            },
    {
        match &self.last_word_break_event {
            Some(e) => Some(e),
            None => None,
        }
    }
}


/// The last `n` items of `s` (all of `s` when it is shorter).
pub open spec fn last_n<T>(s: Seq<T>, n: int) -> Seq<T> {
    if s.len() <= n {
        s
    } else {
        s.subrange(s.len() - n, s.len() as int)
    }
}

proof fn lemma_last_n_push<T>(s: Seq<T>, x: T, n: int)
    requires
        n > 0,
    ensures
        last_n(last_n(s, n).push(x), n) == last_n(s.push(x), n),
{
    if s.len() <= n {
    } else {
        let t = s.subrange(s.len() - n, s.len() as int);
        assert(last_n(t.push(x), n) =~= last_n(s.push(x), n));
    }
}

/// Collects samples into frames of a fixed size for spectral analysis. A
/// batch fills the current frame as far as it fits; samples past the end of
/// a frame are dropped, and a full frame is handed out and the next one
/// starts empty.
pub struct FrameFiller<T> {
    frame: Vec<T>,
    filled: usize,
    size: usize,
}

impl<T: Copy> FrameFiller<T> {
    /// The samples of the frame being filled.
    pub closed spec fn contents(&self) -> Seq<T> {
        self.frame@.subrange(0, self.filled as int)
    }

    /// The frame size.
    pub closed spec fn spec_size(&self) -> nat {
        self.size as nat
    }

    pub closed spec fn wf(&self) -> bool {
        &&& self.size > 0
        &&& self.filled < self.size
        &&& self.filled <= self.frame@.len() <= self.size
    }

    /// An empty filler of frames of `size` samples.
    pub fn new(size: usize) -> (r: Self)
        requires
            size > 0,
        ensures
            r.wf(),
            r.spec_size() == size,
            r.contents() == Seq::<T>::empty(),
    {
        FrameFiller { frame: Vec::new(), filled: 0, size }
    }

    /// Add a batch: the frame takes the first samples that fit. When it is
    /// full, the whole frame is returned and filling starts over.
    pub fn push_batch(&mut self, samples: &[T]) -> (r: Option<Vec<T>>)
        requires
            old(self).wf(),
        ensures
            final(self).wf(),
            final(self).spec_size() == old(self).spec_size(),
            ({
                let room = old(self).spec_size() - old(self).contents().len();
                let taken = if samples@.len() < room {
                    samples@.len() as int
                } else {
                    room
                };
                let grown = old(self).contents() + samples@.subrange(0, taken);
                if grown.len() == old(self).spec_size() {
                    r matches Some(f) && f@ == grown && final(self).contents() == Seq::<T>::empty()
                } else {
                    r is None && final(self).contents() == grown
                }
            }),
    {
        let ghost before = self.contents();
        let mut i: usize = 0;
        while i < samples.len() && self.filled < self.size
            invariant
                0 <= i <= samples@.len(),
                self.size == old(self).size,
                self.filled <= self.frame@.len() <= self.size,
                self.filled == old(self).filled + i,
                self.contents() == before + samples@.subrange(0, i as int),
                before == old(self).contents(),
            decreases samples@.len() - i,
        {
            let x = samples[i];
            let ghost old_frame = self.frame@;
            let ghost f = self.filled as int;
            if self.frame.len() <= self.filled {
                self.frame.push(x);
            } else {
                self.frame.set(self.filled, x);
            }
            assert(self.frame@.subrange(0, f + 1) =~= old_frame.subrange(0, f).push(x));
            assert(samples@.subrange(0, i + 1) =~= samples@.subrange(0, i as int).push(x));
            self.filled = self.filled + 1;
            i = i + 1;
            assert(self.contents() =~= before + samples@.subrange(0, i as int));
        }
        if self.filled >= self.size {
            let mut out: Vec<T> = Vec::new();
            let mut k: usize = 0;
            while k < self.size
                invariant
                    self.filled == self.size,
                    self.frame@.len() == self.size,
                    0 <= k <= self.size,
                    out@ == self.frame@.subrange(0, k as int),
                decreases self.size - k,
            {
                out.push(self.frame[k]);
                k = k + 1;
                assert(out@ =~= self.frame@.subrange(0, k as int));
            }
            self.filled = 0;
            assert(self.contents() =~= Seq::<T>::empty());
            Some(out)
        } else {
            None
        }
    }
}

/// The window of a peak-preserving waveform reduction: enough samples per
/// window to leave about `target` windows, at least one.
pub fn peak_window_size(len: usize, target: usize) -> (r: usize)
    requires
        target > 0,
    ensures
        r == (if len / target > 0 {
            len / target
        } else {
            1
        }),
{
    let w = len / target;
    if w > 0 {
        w
    } else {
        1
    }
}

/// Ring buffer holding the most recent audio, for finding where speech
/// truly began once it is confirmed.
pub struct LookbackBuffer<T> {
    buffer: Vec<T>,
    write_index: usize,
    filled: bool,
}

impl<T: Copy> LookbackBuffer<T> {
    /// The stored samples, oldest first.
    pub closed spec fn contents(&self) -> Seq<T> {
        if !self.filled {
            self.buffer@.subrange(0, self.write_index as int)
        } else {
            self.buffer@.subrange(self.write_index as int, self.buffer@.len() as int)
                + self.buffer@.subrange(0, self.write_index as int)
        }
    }

    pub closed spec fn spec_capacity(&self) -> int {
        self.buffer@.len() as int
    }

    pub closed spec fn wf(&self) -> bool {
        &&& self.buffer@.len() > 0
        &&& self.write_index < self.buffer@.len()
    }

    /// An empty buffer that keeps the last `capacity` samples.
    pub fn new(capacity: usize, fill: T) -> (r: Self)
        requires
            capacity > 0,
        ensures
            r.wf(),
            r.spec_capacity() == capacity,
            r.contents() == Seq::<T>::empty(),
    {
        let mut buffer: Vec<T> = Vec::new();
        let mut i: usize = 0;
        while i < capacity
            invariant
                i <= capacity,
                buffer@.len() == i,
            decreases capacity - i,
        {
            buffer.push(fill);
            i = i + 1;
        }
        let r = LookbackBuffer { buffer, write_index: 0, filled: false };
        assert(r.contents() =~= Seq::<T>::empty());
        r
    }

    fn push_one(&mut self, x: T)
        requires
            old(self).wf(),
        ensures
            final(self).wf(),
            final(self).spec_capacity() == old(self).spec_capacity(),
            final(self).contents() == last_n(old(self).contents().push(x), old(self).spec_capacity()),
            final(self).contents().len() <= final(self).spec_capacity(),
    {
        let ghost b = self.buffer@;
        let ghost w = self.write_index as int;
        let ghost n = b.len() as int;
        let cap = self.buffer.len();
        let wi = self.write_index;
        self.buffer.set(wi, x);
        let next = (wi + 1) % cap;
        self.write_index = next;
        if next == 0 {
            self.filled = true;
        }
        proof {
            let nb = self.buffer@;
            if w + 1 < n {
                vstd::arithmetic::div_mod::lemma_small_mod((w + 1) as nat, n as nat);
                assert(next == w + 1);
            } else {
                vstd::arithmetic::div_mod::lemma_mod_self_0(n);
                assert(next == 0);
            }
            if !old(self).filled {
                assert(old(self).contents() =~= b.subrange(0, w));
                if w + 1 < n {
                    assert(self.contents() =~= b.subrange(0, w).push(x));
                } else {
                    assert(self.contents() =~= b.subrange(0, w).push(x));
                }
            } else {
                let oc = b.subrange(w, n) + b.subrange(0, w);
                assert(oc.len() == n);
                assert(old(self).contents() =~= oc);
                assert(last_n(oc.push(x), n) =~= oc.push(x).subrange(1, n + 1));
                if w + 1 < n {
                    assert(self.contents() =~= oc.push(x).subrange(1, n + 1));
                } else {
                    assert(self.contents() =~= oc.push(x).subrange(1, n + 1));
                }
            }
        }
    }

    /// Append samples, keeping only the last `capacity` of everything pushed.
    pub fn push(&mut self, samples: &Vec<T>)
        requires
            old(self).wf(),
        ensures
            final(self).wf(),
            final(self).spec_capacity() == old(self).spec_capacity(),
            final(self).contents() == last_n(
                old(self).contents() + samples@,
                old(self).spec_capacity(),
            ),
    {
        let ghost start = self.contents();
        let ghost n = self.spec_capacity();
        proof {
            assert(start.len() <= n) by {
                if self.filled {
                } else {
                }
            }
            assert(start + samples@.subrange(0, 0) =~= start);
        }
        let mut i: usize = 0;
        while i < samples.len()
            invariant
                self.wf(),
                self.spec_capacity() == n,
                n > 0,
                start.len() <= n,
                i <= samples@.len(),
                self.contents() == last_n(start + samples@.subrange(0, i as int), n),
            decreases samples.len() - i,
        {
            let x = samples[i];
            self.push_one(x);
            proof {
                let pre = start + samples@.subrange(0, i as int);
                lemma_last_n_push(pre, x, n);
                assert(pre.push(x) =~= start + samples@.subrange(0, i + 1));
            }
            i = i + 1;
        }
        proof {
            assert(samples@.subrange(0, samples@.len() as int) =~= samples@);
        }
    }

    /// The stored samples in chronological order (oldest to newest).
    pub fn contents_in_order(&self) -> (r: Vec<T>)
        requires
            self.wf(),
        ensures
            r@ == self.contents(),
    {
        let mut r: Vec<T> = Vec::new();
        let cap = self.buffer.len();
        if self.filled {
            let mut i: usize = self.write_index;
            while i < cap
                invariant
                    self.wf(),
                    cap == self.buffer@.len(),
                    self.write_index <= i <= cap,
                    r@ == self.buffer@.subrange(self.write_index as int, i as int),
                decreases cap - i,
            {
                r.push(self.buffer[i]);
                proof {
                    assert(r@ =~= self.buffer@.subrange(self.write_index as int, i + 1));
                }
                i = i + 1;
            }
        }
        let ghost head = r@;
        let mut j: usize = 0;
        while j < self.write_index
            invariant
                self.wf(),
                j <= self.write_index,
                r@ == head + self.buffer@.subrange(0, j as int),
            decreases self.write_index - j,
        {
            r.push(self.buffer[j]);
            proof {
                assert(r@ =~= head + self.buffer@.subrange(0, j + 1));
            }
            j = j + 1;
        }
        proof {
            if !self.filled {
                assert(r@ =~= self.contents());
            } else {
                assert(r@ =~= self.contents());
            }
        }
        r
    }
}

/// Chunk size of the backward onset scan (128 samples, about 2.7ms at 48kHz).
pub const LOOKBACK_CHUNK: usize = 128;

/// End (exclusive) of chunk `j`, counting chunks back from the end of `len` samples.
pub open spec fn chunk_end(len: int, j: int) -> int {
    if len >= LOOKBACK_CHUNK * j {
        len - LOOKBACK_CHUNK * j
    } else {
        0
    }
}

/// Start of chunk `j`, counting chunks back from the end of `len` samples.
pub open spec fn chunk_start(len: int, j: int) -> int {
    chunk_end(len, j + 1)
}

/// Number of chunks that cover `len` samples.
pub open spec fn chunk_count(len: int) -> int {
    (len + LOOKBACK_CHUNK - 1) / (LOOKBACK_CHUNK as int)
}

/// Some sample of chunk `j` reaches the threshold.
pub open spec fn chunk_loud(loud: Seq<bool>, j: int) -> bool {
    exists|i: int| chunk_start(loud.len() as int, j) <= i < chunk_end(loud.len() as int, j) && loud[i]
}

/// No chunk before chunk `j0` is loud.
pub open spec fn quiet_before(loud: Seq<bool>, j0: int) -> bool {
    forall|k: int| 0 <= k < j0 ==> !#[trigger] chunk_loud(loud, k)
}

/// Every chunk from `j0` to `j1` (inclusive) is loud.
pub open spec fn loud_between(loud: Seq<bool>, j0: int, j1: int) -> bool {
    forall|k: int| j0 <= k <= j1 ==> #[trigger] chunk_loud(loud, k)
}

/// Chunks `j0..=j1` are the run of loud chunks nearest the end.
pub open spec fn nearest_loud_run(loud: Seq<bool>, j0: int, j1: int) -> bool {
    let n = chunk_count(loud.len() as int);
    &&& 0 <= j0 <= j1 < n
    &&& quiet_before(loud, j0)
    &&& loud_between(loud, j0, j1)
    &&& (j1 + 1 == n || !chunk_loud(loud, j1 + 1))
}

/// `first` is where the onset scan places the start of speech: the start of
/// the earliest chunk of the run of loud chunks nearest the end, or the end
/// itself when no chunk is loud.
pub open spec fn is_scan_onset(loud: Seq<bool>, first: int) -> bool {
    let len = loud.len() as int;
    if quiet_before(loud, chunk_count(len)) {
        first == len
    } else {
        exists|j0: int, j1: int| #[trigger]
            nearest_loud_run(loud, j0, j1) && first == chunk_start(len, j1)
    }
}

proof fn lemma_chunk_bounds(len: int, j: int)
    requires
        len >= 0,
        0 <= j,
    ensures
        0 <= chunk_start(len, j) <= chunk_end(len, j) <= len,
        j < chunk_count(len) <==> chunk_end(len, j) > 0,
        j < chunk_count(len) ==> chunk_start(len, j) < chunk_end(len, j),
        chunk_end(len, j) > 0 ==> chunk_end(len, j) - chunk_start(len, j) <= LOOKBACK_CHUNK,
{
    let c = LOOKBACK_CHUNK as int;
    assert(c * (j + 1) == c * j + c) by (nonlinear_arith);
    assert(c * j >= 0) by (nonlinear_arith) requires j >= 0, c > 0;
    let n = chunk_count(len);
    assert(len + c - 1 == c * n + (len + c - 1) % c) by {
        vstd::arithmetic::div_mod::lemma_fundamental_div_mod(len + c - 1, c);
    }
    assert(0 <= (len + c - 1) % c < c) by {
        vstd::arithmetic::div_mod::lemma_mod_bound(len + c - 1, c);
    }
    if j < n {
        assert(c * j <= c * (n - 1)) by (nonlinear_arith) requires j <= n - 1, c > 0;
    } else {
        assert(c * j >= c * n) by (nonlinear_arith) requires j >= n, c > 0;
    }
}

/// Where speech started in the recent samples, given which samples reach
/// the amplitude threshold: the backward scan over chunks of
/// `LOOKBACK_CHUNK` samples.
pub fn scan_onset(loud: &Vec<bool>) -> (first: usize)
    ensures
        first <= loud@.len(),
        is_scan_onset(loud@, first as int),
{
    let len = loud.len();
    let ghost glen = len as int;
    let ghost n = chunk_count(glen);
    let mut first: usize = len;
    let mut pos: usize = len;
    let ghost mut j: int = 0;
    proof {
        lemma_chunk_bounds(glen, 0);
    }
    loop
        invariant_except_break
            0 <= j <= n,
            pos == chunk_end(glen, j),
            glen == loud@.len(),
            n == chunk_count(glen),
            first <= len,
            len == glen,
            first == len <==> quiet_before(loud@, j),
            first < len ==> j > 0 && first == chunk_start(glen, j - 1) && exists|j0: int|
                #[trigger] quiet_before(loud@, j0) && 0 <= j0 < j && loud_between(loud@, j0, j - 1),
        ensures
            first <= len,
            is_scan_onset(loud@, first as int),
        decreases pos,
    {
        if pos == 0 {
            proof {
                lemma_chunk_bounds(glen, j);
                assert(j == n) by {
                    if j > n {
                        lemma_chunk_bounds(glen, j - 1);
                    }
                }
                if first < len {
                    let j0 = choose|j0: int|
                        #[trigger] quiet_before(loud@, j0) && 0 <= j0 < j && loud_between(loud@, j0, j - 1);
                    assert(chunk_loud(loud@, j0));
                    assert(!quiet_before(loud@, n));
                    assert(nearest_loud_run(loud@, j0, j - 1));
                }
            }
            break;
        }
        proof {
            lemma_chunk_bounds(glen, j);
            lemma_chunk_bounds(glen, j + 1);
        }
        let chunk_start_idx = if pos >= LOOKBACK_CHUNK {
            pos - LOOKBACK_CHUNK
        } else {
            0
        };
        assert(chunk_start_idx == chunk_start(glen, j)) by {
            assert(LOOKBACK_CHUNK * (j + 1) == LOOKBACK_CHUNK * j + LOOKBACK_CHUNK) by (nonlinear_arith);
        }
        let mut any = false;
        let mut i = chunk_start_idx;
        while i < pos
            invariant
                chunk_start_idx <= i <= pos,
                pos <= loud@.len(),
                any <==> exists|m: int| chunk_start_idx <= m < i && loud@[m],
            decreases pos - i,
        {
            if loud[i] {
                any = true;
            }
            i = i + 1;
        }
        assert(any == chunk_loud(loud@, j));
        if any {
            proof {
                if first == len {
                    assert(quiet_before(loud@, j) && 0 <= j < j + 1 && loud_between(loud@, j, j));
                } else {
                    let j0 = choose|j0: int|
                        #[trigger] quiet_before(loud@, j0) && 0 <= j0 < j && loud_between(loud@, j0, j - 1);
                    assert(loud_between(loud@, j0, j));
                }
                assert(!quiet_before(loud@, j + 1));
            }
            first = chunk_start_idx;
        } else if first < len {
            proof {
                let j0 = choose|j0: int|
                    #[trigger] quiet_before(loud@, j0) && 0 <= j0 < j && loud_between(loud@, j0, j - 1);
                assert(chunk_loud(loud@, j0));
                assert(!quiet_before(loud@, n));
                assert(nearest_loud_run(loud@, j0, j - 1));
            }
            break;
        }
        pos = chunk_start_idx;
        proof {
            assert(quiet_before(loud@, j + 1) <==> (quiet_before(loud@, j) && !chunk_loud(loud@, j)));
            j = j + 1;
        }
    }
    first
}

/// Margin taken before the detected onset to catch the very beginning (20ms).
pub open spec fn lookback_margin(sample_rate: u32) -> int {
    sample_rate as int * 20 / 1000
}

/// Find the true start of speech in the lookback samples (oldest first),
/// given which of them reach the lookback amplitude threshold. Returns the
/// samples from that start (less a 20ms margin) to the end, and how far back
/// the start lies in milliseconds.
pub fn find_lookback_start<T: Copy>(buffer: &Vec<T>, loud: &Vec<bool>, sample_rate: u32) -> (r: (
    Vec<T>,
    u32,
))
    requires
        loud@.len() == buffer@.len(),
        sample_rate > 0,
        buffer@.len() <= u32::MAX,
    ensures
        exists|first: int|
            #[trigger] is_scan_onset(loud@, first) && {
                let start = if first >= lookback_margin(sample_rate) {
                    first - lookback_margin(sample_rate)
                } else {
                    0
                };
                &&& r.0@ == buffer@.subrange(start, buffer@.len() as int)
                &&& r.1 == ((buffer@.len() - start) * 1000 / (sample_rate as int)) as u32
            },
{
    let len = buffer.len();
    let first = scan_onset(loud);
    let margin = (sample_rate as u64 * 20 / 1000) as usize;
    let start = if first >= margin {
        first - margin
    } else {
        0
    };
    let mut samples: Vec<T> = Vec::new();
    let mut i = start;
    while i < len
        invariant
            start <= i <= len,
            len == buffer@.len(),
            samples@ == buffer@.subrange(start as int, i as int),
        decreases len - i,
    {
        samples.push(buffer[i]);
        proof {
            assert(samples@ =~= buffer@.subrange(start as int, i + 1));
        }
        i = i + 1;
    }
    let before = (len - start) as u64;
    let offset_ms = (before * 1000 / (sample_rate as u64)) as u32;
    proof {
        assert(is_scan_onset(loud@, first as int));
    }
    (samples, offset_ms)
}

/// Speech is only ever confirmed from a speech-like frame that is not a
/// transient, after the first frame.
pub proof fn lemma_speech_starts_only_on_speech_frames(s: SpeechStateMachine, f: FrameFeatures)
    requires
        !s.is_speaking,
        speech_step(s, f).is_speaking,
    ensures
        s.initialized,
        !f.is_transient,
        f.is_voiced || f.is_whisper,
{
}

/// Confirmed speech only ends on a frame without speech features, and the
/// end is always reported.
pub proof fn lemma_speech_end_is_reported(s: SpeechStateMachine, f: FrameFeatures)
    requires
        s.is_speaking,
        !speech_step(s, f).is_speaking,
    ensures
        !(f.is_voiced || f.is_whisper),
        speech_step(s, f).last_state_change is Ended,
{
}

/// An end is only reported when confirmed speech stops.
pub proof fn lemma_end_report_means_speech_stopped(s: SpeechStateMachine, f: FrameFeatures)
    requires
        speech_step(s, f).last_state_change is Ended,
    ensures
        s.is_speaking,
        !speech_step(s, f).is_speaking,
{
}

/// Word breaks are only reported inside speech that continues.
pub proof fn lemma_word_break_within_speech(s: SpeechStateMachine, f: FrameFeatures)
    requires
        speech_step(s, f).last_word_break_event is Some,
    ensures
        s.is_speaking,
        speech_step(s, f).is_speaking,
        f.is_voiced || f.is_whisper,
{
}


/// The change a detector reports for one frame: the start of speech (with
/// the lookback found for it) when the frame confirms speech, otherwise what
/// the step itself recorded.
pub open spec fn frame_change(s: SpeechStateMachine, f: FrameFeatures, lookback_samples: usize) -> SpeechStateChange {
    if !s.is_speaking && speech_step(s, f).is_speaking {
        SpeechStateChange::Started { lookback_samples }
    } else {
        speech_step(s, f).last_state_change
    }
}

/// A frame reports the start of speech exactly when speaking begins, its end
/// exactly when speaking stops, and no change otherwise; the first frame
/// reports no change and leaves speaking off.
pub proof fn lemma_frame_change_matches_speaking(
    s: SpeechStateMachine,
    f: FrameFeatures,
    lookback_samples: usize,
)
    ensures
        ({
            let n = speech_step(s, f);
            let c = frame_change(s, f, lookback_samples);
            &&& (c is Started <==> (!s.is_speaking && n.is_speaking))
            &&& (c is Ended <==> (s.is_speaking && !n.is_speaking))
            &&& (c is Unchanged <==> n.is_speaking == s.is_speaking)
            &&& (!s.initialized ==> c is Unchanged && n.is_speaking == s.is_speaking)
        }),
{
}

/// The window event a state change is announced with: the start and the end
/// of speech each have theirs, and no change has none.
pub open spec fn change_event_spec(c: SpeechStateChange) -> Option<EngineEventKind> {
    match c {
        SpeechStateChange::Unchanged => None,
        SpeechStateChange::Started { .. } => Some(EngineEventKind::SpeechStarted),
        SpeechStateChange::Ended { .. } => Some(EngineEventKind::SpeechEnded),
    }
}

/// The window event a state change is announced with.
pub fn change_event(c: &SpeechStateChange) -> (r: Option<EngineEventKind>)
    ensures
        r == change_event_spec(*c),
{
    match c {
        SpeechStateChange::Unchanged => None,
        SpeechStateChange::Started { .. } => Some(EngineEventKind::SpeechStarted),
        SpeechStateChange::Ended { .. } => Some(EngineEventKind::SpeechEnded),
    }
}

/// A frame announces `speech-started` exactly when speaking begins,
/// `speech-ended` exactly when it stops, and nothing when speaking stays as
/// it was; the first frame announces nothing.
pub proof fn lemma_frame_event_matches_speaking(
    s: SpeechStateMachine,
    f: FrameFeatures,
    lookback_samples: usize,
)
    ensures
        ({
            let n = speech_step(s, f);
            let e = change_event_spec(frame_change(s, f, lookback_samples));
            &&& (e matches Some(k) && frontend_event_name_spec(k) == "speech-started"@) <==> (
            !s.is_speaking && n.is_speaking)
            &&& (e matches Some(k) && frontend_event_name_spec(k) == "speech-ended"@) <==> (
            s.is_speaking && !n.is_speaking)
            &&& e is None <==> n.is_speaking == s.is_speaking
            &&& !s.initialized ==> e is None
        }),
{
    reveal_strlit("speech-started");
    reveal_strlit("speech-ended");
    assert("speech-started"@[7] != "speech-ended"@[7]);
    assert(frontend_event_name_spec(EngineEventKind::SpeechStarted) != "speech-ended"@);
    assert(frontend_event_name_spec(EngineEventKind::SpeechEnded) != "speech-started"@);
    lemma_frame_change_matches_speaking(s, f, lookback_samples);
}

/// A word break is reported only when speech resumes after a gap whose
/// length lies between the shortest and the longest word break, and it
/// reports that gap and where in the speech it began; a gap in that range
/// that speech resumes after is always reported.
pub proof fn lemma_word_break_gap_in_range(s: SpeechStateMachine, f: FrameFeatures)
    ensures
        speech_step(s, f).last_word_break_event matches Some(e) ==> {
            &&& s.initialized && s.is_speaking && s.in_word_break
            &&& f.is_voiced || f.is_whisper
            &&& s.timings.min_word_break_samples <= s.word_break_sample_count
            &&& s.word_break_sample_count <= s.timings.max_word_break_samples
            &&& e.gap_duration_ms == (s.word_break_sample_count as int * 1000
                / s.timings.sample_rate as int) as u32
            &&& e.offset_ms == (s.word_break_start_speech_samples as int * 1000
                / s.timings.sample_rate as int) as u32
        },
        s.initialized && s.is_speaking && s.in_word_break && (f.is_voiced || f.is_whisper)
            && s.timings.min_word_break_samples <= s.word_break_sample_count
            <= s.timings.max_word_break_samples ==> speech_step(s, f).last_word_break_event is Some,
        s.word_break_sample_count > s.timings.max_word_break_samples ==> speech_step(
            s,
            f,
        ).last_word_break_event is None,
{
}
} // verus!
