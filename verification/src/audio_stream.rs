//! Audio capture bookkeeping: which stream runs for which device, when
//! monitoring and recording start and stop, and the pairing of samples from
//! two streams before they are mixed.
//!
//! The audio devices themselves and the sample arithmetic (mono
//! conversion, mixing gains) are handled by the caller.

use vstd::prelude::*;
use vstd::string::*;
use crate::text::{parse_usize, parsed_usize, str_eq};
use crate::types::AudioSourceType;

verus! {

/// What a mixer hands on after taking samples.
pub enum MixerOutput<T> {
    /// Nothing to hand on yet
    Nothing,
    /// A single stream: the samples as they came
    Direct(Vec<T>),
    /// Two streams: samples of stream 1 and stream 2 paired in arrival order
    Pairs(Vec<(T, T)>),
}

/// Buffers that pair the samples of two streams in arrival order.
pub struct PairMixer<T> {
    buffer1: Vec<T>,
    buffer2: Vec<T>,
    num_streams: usize,
    channels: u16,
}

/// The pairs of the first `n` items of `a` and `b`.
pub open spec fn zip_prefix<T>(a: Seq<T>, b: Seq<T>, n: int) -> Seq<(T, T)> {
    Seq::new(n as nat, |i: int| (a[i], b[i]))
}

impl<T: Copy> PairMixer<T> {
    pub closed spec fn spec_buffer1(&self) -> Seq<T> {
        self.buffer1@
    }

    pub closed spec fn spec_buffer2(&self) -> Seq<T> {
        self.buffer2@
    }

    pub closed spec fn spec_num_streams(&self) -> usize {
        self.num_streams
    }

    pub closed spec fn spec_channels(&self) -> u16 {
        self.channels
    }

    /// At most one buffer holds samples waiting for a partner.
    pub open spec fn wf(&self) -> bool {
        self.spec_buffer1().len() == 0 || self.spec_buffer2().len() == 0
    }

    /// No streams yet, stereo.
    pub fn new() -> (r: Self)
        ensures
            r.wf(),
            r.spec_buffer1().len() == 0,
            r.spec_buffer2().len() == 0,
            r.spec_num_streams() == 0,
            r.spec_channels() == 2,
    {
        PairMixer { buffer1: Vec::new(), buffer2: Vec::new(), num_streams: 0, channels: 2 }
    }

    /// Set the number of streams, dropping buffered samples.
    pub fn set_num_streams(&mut self, num: usize)
        ensures
            final(self).wf(),
            final(self).spec_num_streams() == num,
            final(self).spec_buffer1().len() == 0,
            final(self).spec_buffer2().len() == 0,
            final(self).spec_channels() == old(self).spec_channels(),
    {
        self.num_streams = num;
        self.buffer1.clear();
        self.buffer2.clear();
    }

    /// Set the channel count of the streams.
    pub fn set_channels(&mut self, channels: u16)
        ensures
            final(self).spec_channels() == channels,
            final(self).spec_buffer1() == old(self).spec_buffer1(),
            final(self).spec_buffer2() == old(self).spec_buffer2(),
            final(self).spec_num_streams() == old(self).spec_num_streams(),
    {
        self.channels = channels;
    }

    /// The channel count of the streams.
    pub fn channels(&self) -> (r: u16)
        ensures
            r == self.spec_channels(),
    {
        self.channels
    }

    /// Pair what both buffers hold, oldest first, and drop the paired samples.
    fn try_mix(&mut self) -> (r: MixerOutput<T>)
        ensures
            ({
                let b1 = old(self).spec_buffer1();
                let b2 = old(self).spec_buffer2();
                let m = if b1.len() <= b2.len() {
                    b1.len() as int
                } else {
                    b2.len() as int
                };
                &&& final(self).spec_buffer1() == b1.subrange(m, b1.len() as int)
                &&& final(self).spec_buffer2() == b2.subrange(m, b2.len() as int)
                &&& final(self).spec_num_streams() == old(self).spec_num_streams()
                &&& final(self).spec_channels() == old(self).spec_channels()
                &&& if m == 0 {
                    r is Nothing
                } else {
                    r matches MixerOutput::Pairs(p) && p@ == zip_prefix(b1, b2, m)
                }
            }),
            final(self).wf(),
    {
        let n1 = self.buffer1.len();
        let n2 = self.buffer2.len();
        let m = if n1 <= n2 {
            n1
        } else {
            n2
        };
        if m == 0 {
            return MixerOutput::Nothing;
        }
        let ghost b1 = self.buffer1@;
        let ghost b2 = self.buffer2@;
        let mut pairs: Vec<(T, T)> = Vec::new();
        let mut i: usize = 0;
        while i < m
            invariant
                i <= m,
                m <= self.buffer1@.len(),
                m <= self.buffer2@.len(),
                self.buffer1@ == b1,
                self.buffer2@ == b2,
                pairs@ == zip_prefix(b1, b2, i as int),
            decreases m - i,
        {
            pairs.push((self.buffer1[i], self.buffer2[i]));
            proof {
                assert(pairs@ =~= zip_prefix(b1, b2, i + 1));
            }
            i = i + 1;
        }
        let mut rest1: Vec<T> = Vec::new();
        let mut j: usize = m;
        while j < n1
            invariant
                m <= j <= n1,
                n1 == self.buffer1@.len(),
                self.buffer1@ == b1,
                rest1@ == b1.subrange(m as int, j as int),
            decreases n1 - j,
        {
            rest1.push(self.buffer1[j]);
            proof {
                assert(rest1@ =~= b1.subrange(m as int, j + 1));
            }
            j = j + 1;
        }
        let mut rest2: Vec<T> = Vec::new();
        let mut k: usize = m;
        while k < n2
            invariant
                m <= k <= n2,
                n2 == self.buffer2@.len(),
                self.buffer2@ == b2,
                rest2@ == b2.subrange(m as int, k as int),
            decreases n2 - k,
        {
            rest2.push(self.buffer2[k]);
            proof {
                assert(rest2@ =~= b2.subrange(m as int, k + 1));
            }
            k = k + 1;
        }
        self.buffer1 = rest1;
        self.buffer2 = rest2;
        MixerOutput::Pairs(pairs)
    }

    fn append_to(buf: &mut Vec<T>, samples: &Vec<T>)
        ensures
            final(buf)@ == old(buf)@ + samples@,
    {
        let ghost start = buf@;
        let mut i: usize = 0;
        while i < samples.len()
            invariant
                i <= samples@.len(),
                buf@ == start + samples@.subrange(0, i as int),
            decreases samples@.len() - i,
        {
            buf.push(samples[i]);
            proof {
                assert(buf@ =~= start + samples@.subrange(0, i + 1));
            }
            i = i + 1;
        }
        assert(samples@.subrange(0, samples@.len() as int) =~= samples@);
    }

    /// Take samples of stream 1: with a single stream they are handed on as
    /// they are; with two they wait for stream 2's samples to pair with.
    pub fn push_stream1(&mut self, samples: &Vec<T>) -> (r: MixerOutput<T>)
        requires
            old(self).wf(),
        ensures
            final(self).wf(),
            final(self).spec_num_streams() == old(self).spec_num_streams(),
            final(self).spec_channels() == old(self).spec_channels(),
            old(self).spec_num_streams() == 1 ==> (r matches MixerOutput::Direct(v) && v@
                == samples@ && final(self).spec_buffer1() == old(self).spec_buffer1()
                && final(self).spec_buffer2() == old(self).spec_buffer2()),
            old(self).spec_num_streams() != 1 ==> ({
                let b1 = old(self).spec_buffer1() + samples@;
                let b2 = old(self).spec_buffer2();
                let m = if b1.len() <= b2.len() {
                    b1.len() as int
                } else {
                    b2.len() as int
                };
                &&& final(self).spec_buffer1() == b1.subrange(m, b1.len() as int)
                &&& final(self).spec_buffer2() == b2.subrange(m, b2.len() as int)
                &&& if m == 0 {
                    r is Nothing
                } else {
                    r matches MixerOutput::Pairs(p) && p@ == zip_prefix(b1, b2, m)
                }
            }),
    {
        if self.num_streams == 1 {
            let mut v: Vec<T> = Vec::new();
            Self::append_to(&mut v, samples);
            MixerOutput::Direct(v)
        } else {
            Self::append_to(&mut self.buffer1, samples);
            self.try_mix()
        }
    }

    /// Take samples of stream 2; ignored unless there are two streams.
    pub fn push_stream2(&mut self, samples: &Vec<T>) -> (r: MixerOutput<T>)
        requires
            old(self).wf(),
        ensures
            final(self).wf(),
            final(self).spec_num_streams() == old(self).spec_num_streams(),
            final(self).spec_channels() == old(self).spec_channels(),
            old(self).spec_num_streams() <= 1 ==> (r is Nothing && final(self).spec_buffer1()
                == old(self).spec_buffer1() && final(self).spec_buffer2() == old(self).spec_buffer2()),
            old(self).spec_num_streams() > 1 ==> ({
                let b1 = old(self).spec_buffer1();
                let b2 = old(self).spec_buffer2() + samples@;
                let m = if b1.len() <= b2.len() {
                    b1.len() as int
                } else {
                    b2.len() as int
                };
                &&& final(self).spec_buffer1() == b1.subrange(m, b1.len() as int)
                &&& final(self).spec_buffer2() == b2.subrange(m, b2.len() as int)
                &&& if m == 0 {
                    r is Nothing
                } else {
                    r matches MixerOutput::Pairs(p) && p@ == zip_prefix(b1, b2, m)
                }
            }),
    {
        if self.num_streams <= 1 {
            return MixerOutput::Nothing;
        }
        Self::append_to(&mut self.buffer2, samples);
        self.try_mix()
    }
}

/// Pairing loses nothing and invents nothing: what was buffered before
/// plus what arrived equals what was paired plus what stays buffered, on
/// each side.
pub proof fn lemma_pairing_conserves_samples<T>(b1: Seq<T>, b2: Seq<T>, m: int)
    requires
        m == (if b1.len() <= b2.len() {
            b1.len() as int
        } else {
            b2.len() as int
        }),
    ensures
        zip_prefix(b1, b2, m).map_values(|p: (T, T)| p.0) + b1.subrange(m, b1.len() as int) == b1,
        zip_prefix(b1, b2, m).map_values(|p: (T, T)| p.1) + b2.subrange(m, b2.len() as int) == b2,
        b1.subrange(m, b1.len() as int).len() == 0 || b2.subrange(m, b2.len() as int).len() == 0,
{
    assert(zip_prefix(b1, b2, m).map_values(|p: (T, T)| p.0) + b1.subrange(m, b1.len() as int)
        =~= b1);
    assert(zip_prefix(b1, b2, m).map_values(|p: (T, T)| p.1) + b2.subrange(m, b2.len() as int)
        =~= b2);
}

/// Recorded audio taken out of the capture state.
pub struct RawRecordedAudio<T> {
    pub samples: Vec<T>,
    pub sample_rate: u32,
    pub channels: u16,
}

/// What a device needs when capture is asked to run on it.
#[derive(Debug, Clone, Copy, PartialEq, Eq, Structural)]
pub enum StreamStart {
    /// A stream for this device is already running
    AlreadyRunning,
    /// No stream runs: open the device and start one
    NeedsStart,
}

/// The stream runs on the device `id`.
pub open spec fn on_device(current: Option<String>, id: Seq<char>) -> bool {
    current matches Some(d) && d@ == id
}

/// Bookkeeping of the capture stream and what uses it.
pub struct AudioStreamControl<T> {
    pub recording_samples: Vec<T>,
    pub sample_rate: u32,
    pub channels: u16,
    pub is_recording: bool,
    pub is_monitoring: bool,
    pub is_processing_enabled: bool,
    pub stream_active: bool,
    pub source_type: AudioSourceType,
    /// Device of the running stream
    pub current_device_id: Option<String>,
    /// Tells the stream thread to stop
    pub stop_signal: bool,
}

/// Default sample rate for a detector created before the rate is known.
/// The position of the input device named by `device_id` among
/// `device_count` enumerated devices: the id is the device's index written
/// in decimal.
pub fn device_index_for_id(device_id: &str, device_count: usize) -> (r: Result<usize, String>)
    ensures
        match parsed_usize(device_id@) {
            None => r matches Err(m) && m@ == "Invalid device ID"@,
            Some(i) => if i < device_count {
                r == Ok::<usize, String>(i)
            } else {
                r matches Err(m) && m@ == "Device not found"@
            },
        },
{
    match parse_usize(device_id) {
        None => Err("Invalid device ID".to_string()),
        Some(i) => if i < device_count {
            Ok(i)
        } else {
            Err("Device not found".to_string())
        },
    }
}

pub const FALLBACK_SAMPLE_RATE: u32 = 48000;

impl<T: Copy> AudioStreamControl<T> {
    /// Nothing running.
    pub fn new() -> (r: Self)
        ensures
            r.recording_samples@.len() == 0,
            r.sample_rate == 0,
            r.channels == 0,
            !r.is_recording,
            !r.is_monitoring,
            !r.is_processing_enabled,
            !r.stream_active,
            r.source_type == AudioSourceType::Input,
            r.current_device_id is None,
            !r.stop_signal,
    {
        AudioStreamControl {
            recording_samples: Vec::new(),
            sample_rate: 0,
            channels: 0,
            is_recording: false,
            is_monitoring: false,
            is_processing_enabled: false,
            stream_active: false,
            source_type: AudioSourceType::Input,
            current_device_id: None,
            stop_signal: false,
        }
    }

    /// Turn speech processing on or off. When turned on, returns the sample
    /// rate for a new speech detector: the stream's rate once known, else
    /// 48kHz.
    pub fn set_processing_enabled(&mut self, enabled: bool) -> (r: Option<u32>)
        ensures
            final(self).is_processing_enabled == enabled,
            final(self).sample_rate == old(self).sample_rate,
            final(self).stream_active == old(self).stream_active,
            final(self).is_monitoring == old(self).is_monitoring,
            final(self).is_recording == old(self).is_recording,
            *final(self) == (AudioStreamControl { is_processing_enabled: enabled, ..*old(self) }),
            r == (if enabled {
                Some(
                    if old(self).sample_rate > 0 {
                        old(self).sample_rate
                    } else {
                        FALLBACK_SAMPLE_RATE
                    },
                )
            } else {
                None
            }),
    {
        self.is_processing_enabled = enabled;
        if enabled {
            Some(
                if self.sample_rate > 0 {
                    self.sample_rate
                } else {
                    FALLBACK_SAMPLE_RATE
                },
            )
        } else {
            None
        }
    }

    /// Capture started elsewhere with the given format.
    pub fn init_for_capture(&mut self, sample_rate: u32, channels: u16, source_type: AudioSourceType)
        ensures
            final(self).sample_rate == sample_rate,
            final(self).channels == channels,
            final(self).source_type == source_type,
            final(self).stream_active,
            final(self).is_monitoring == old(self).is_monitoring,
            final(self).is_recording == old(self).is_recording,
            *final(self) == (AudioStreamControl {
                sample_rate,
                channels,
                source_type,
                stream_active: true,
                ..*old(self)
            }),
    {
        self.sample_rate = sample_rate;
        self.channels = channels;
        self.source_type = source_type;
        self.stream_active = true;
    }

    /// Capture stopped.
    pub fn mark_capture_stopped(&mut self)
        ensures
            !final(self).stream_active,
            final(self).is_monitoring == old(self).is_monitoring,
            final(self).is_recording == old(self).is_recording,
            *final(self) == (AudioStreamControl { stream_active: false, ..*old(self) }),
    {
        self.stream_active = false;
    }

    /// Ask for the stream to run on `device_id`: a running stream must
    /// already be on that device.
    pub fn begin_stream(&self, device_id: &str) -> (r: Result<StreamStart, String>)
        ensures
            !self.stream_active ==> r == Ok::<StreamStart, String>(StreamStart::NeedsStart),
            self.stream_active && on_device(self.current_device_id, device_id@) ==> r
                == Ok::<StreamStart, String>(StreamStart::AlreadyRunning),
            self.stream_active && !on_device(self.current_device_id, device_id@) ==> (r matches Err(
                e,
            ) && e@ == "Cannot change device while stream is active"@),
    {
        if !self.stream_active {
            return Ok(StreamStart::NeedsStart);
        }
        let same = match &self.current_device_id {
            Some(d) => str_eq(d.as_str(), device_id),
            None => false,
        };
        if same {
            Ok(StreamStart::AlreadyRunning)
        } else {
            Err(String::from_str("Cannot change device while stream is active"))
        }
    }

    /// A stream was opened on `device_id` with the device's format.
    pub fn mark_stream_started(&mut self, device_id: String, sample_rate: u32, channels: u16)
        ensures
            final(self).stream_active,
            final(self).sample_rate == sample_rate,
            final(self).channels == channels,
            final(self).current_device_id == Some(device_id),
            !final(self).stop_signal,
            final(self).is_monitoring == old(self).is_monitoring,
            final(self).is_recording == old(self).is_recording,
            final(self).source_type == old(self).source_type,
            *final(self) == (AudioStreamControl {
                sample_rate,
                channels,
                stream_active: true,
                current_device_id: Some(device_id),
                stop_signal: false,
                ..*old(self)
            }),
    {
        self.sample_rate = sample_rate;
        self.channels = channels;
        self.stream_active = true;
        self.current_device_id = Some(device_id);
        self.stop_signal = false;
    }

    /// The stream could not be built or played: nothing runs any more.
    pub fn mark_stream_failed(&mut self)
        ensures
            !final(self).stream_active,
            !final(self).is_monitoring,
            !final(self).is_recording,
            final(self).current_device_id == old(self).current_device_id,
            *final(self) == (AudioStreamControl {
                stream_active: false,
                is_monitoring: false,
                is_recording: false,
                ..*old(self)
            }),
    {
        self.stream_active = false;
        self.is_monitoring = false;
        self.is_recording = false;
    }

    /// The stream thread ended (stop signal, or an unsupported format).
    pub fn mark_stream_ended(&mut self)
        ensures
            !final(self).stream_active,
            final(self).is_monitoring == old(self).is_monitoring,
            final(self).is_recording == old(self).is_recording,
            *final(self) == (AudioStreamControl { stream_active: false, ..*old(self) }),
    {
        self.stream_active = false;
    }

    /// Stop the stream if nothing uses it: signal the thread and forget the
    /// device. Returns whether it was stopped.
    pub fn maybe_stop_stream(&mut self) -> (r: bool)
        ensures
            r == (old(self).stream_active && !old(self).is_monitoring && !old(self).is_recording),
            r ==> final(self).stop_signal && final(self).current_device_id is None,
            !r ==> final(self).stop_signal == old(self).stop_signal
                && final(self).current_device_id == old(self).current_device_id,
            final(self).stream_active == old(self).stream_active,
            final(self).source_type == old(self).source_type,
            final(self).recording_samples == old(self).recording_samples,
            final(self).sample_rate == old(self).sample_rate,
            final(self).channels == old(self).channels,
            final(self).is_processing_enabled == old(self).is_processing_enabled,
            final(self).is_monitoring == old(self).is_monitoring,
            final(self).is_recording == old(self).is_recording,
            r ==> *final(self) == (AudioStreamControl {
                stop_signal: true,
                current_device_id: None,
                ..*old(self)
            }),
            !r ==> *final(self) == *old(self),
    {
        let should_stop = self.stream_active && !self.is_monitoring && !self.is_recording;
        if should_stop {
            self.stop_signal = true;
            self.current_device_id = None;
        }
        should_stop
    }

    /// Whether monitoring may start for `source_type`; the mixed source is
    /// refused (it needs a system device, and is not available).
    pub fn check_start_monitor(&self, source_type: AudioSourceType, has_system_device: bool) -> (r:
        Result<(), String>)
        ensures
            self.is_monitoring ==> (r matches Err(e) && e@ == "Already monitoring"@),
            !self.is_monitoring ==> reports(r, source_problem(source_type, has_system_device)),
    {
        if self.is_monitoring {
            return Err(String::from_str("Already monitoring"));
        }
        check_source(source_type, has_system_device)
    }

    /// Monitoring is on (its visualization processor is created by the
    /// caller, with the stream's sample rate).
    pub fn enable_monitoring(&mut self, source_type: AudioSourceType)
        ensures
            final(self).is_monitoring,
            final(self).source_type == source_type,
            final(self).is_recording == old(self).is_recording,
            final(self).stream_active == old(self).stream_active,
            final(self).sample_rate == old(self).sample_rate,
            *final(self) == (AudioStreamControl {
                is_monitoring: true,
                source_type,
                ..*old(self)
            }),
    {
        self.is_monitoring = true;
        self.source_type = source_type;
    }

    /// Stop monitoring. Returns (stream stopped, secondary stream to stop).
    pub fn stop_monitor(&mut self) -> (r: (bool, bool))
        ensures
            !final(self).is_monitoring,
            r.0 == (old(self).stream_active && !old(self).is_recording),
            r.1 == (old(self).source_type == AudioSourceType::Mixed),
            final(self).is_recording == old(self).is_recording,
            final(self).stream_active == old(self).stream_active,
            r.0 ==> *final(self) == (AudioStreamControl {
                is_monitoring: false,
                stop_signal: true,
                current_device_id: None,
                ..*old(self)
            }),
            !r.0 ==> *final(self) == (AudioStreamControl { is_monitoring: false, ..*old(self) }),
    {
        self.is_monitoring = false;
        let stopped = self.maybe_stop_stream();
        (stopped, self.source_type == AudioSourceType::Mixed)
    }

    /// Whether recording may start for `source_type`.
    pub fn check_start_recording(&self, source_type: AudioSourceType, has_system_device: bool) -> (r:
        Result<(), String>)
        ensures
            self.is_recording ==> (r matches Err(e) && e@ == "Already recording"@),
            !self.is_recording ==> reports(r, source_problem(source_type, has_system_device)),
    {
        if self.is_recording {
            return Err(String::from_str("Already recording"));
        }
        check_source(source_type, has_system_device)
    }

    /// Recording is on, from an empty buffer; monitoring comes on with it.
    /// Returns whether monitoring was off (its processor must be created).
    pub fn enable_recording(&mut self, source_type: AudioSourceType) -> (r: bool)
        ensures
            r == !old(self).is_monitoring,
            final(self).is_recording,
            final(self).is_monitoring,
            final(self).recording_samples@.len() == 0,
            final(self).source_type == source_type,
            final(self).stream_active == old(self).stream_active,
            final(self).sample_rate == old(self).sample_rate,
            *final(self) == (AudioStreamControl {
                recording_samples: final(self).recording_samples,
                is_recording: true,
                is_monitoring: true,
                source_type,
                ..*old(self)
            }),
    {
        self.recording_samples.clear();
        self.is_recording = true;
        self.source_type = source_type;
        let was_off = !self.is_monitoring;
        self.is_monitoring = true;
        was_off
    }

    /// Stop recording and take the recorded samples; monitoring stops too
    /// unless it is kept. Fails when nothing was recorded.
    pub fn stop_recording(&mut self, keep_monitoring: bool) -> (r: Result<RawRecordedAudio<T>, String>)
        ensures
            !final(self).is_recording,
            final(self).is_monitoring == (keep_monitoring && old(self).is_monitoring),
            final(self).recording_samples@.len() == 0,
            old(self).recording_samples@.len() == 0 ==> (r matches Err(e) && e@
                == "No audio recorded"@),
            old(self).recording_samples@.len() > 0 ==> (r matches Ok(raw) && raw.samples@ == old(self).recording_samples@ && raw.sample_rate == old(self).sample_rate && raw.channels == old(self).channels),
            final(self).stop_signal == (old(self).stop_signal || (old(self).stream_active && !(
            keep_monitoring && old(self).is_monitoring))),
            ({
                let stopped = old(self).stream_active && !(keep_monitoring && old(self).is_monitoring);
                *final(self) == (AudioStreamControl {
                    recording_samples: final(self).recording_samples,
                    is_recording: false,
                    is_monitoring: keep_monitoring && old(self).is_monitoring,
                    stop_signal: if stopped {
                        true
                    } else {
                        old(self).stop_signal
                    },
                    current_device_id: if stopped {
                        None
                    } else {
                        old(self).current_device_id
                    },
                    ..*old(self)
                })
            }),
    {
        self.is_recording = false;
        if !keep_monitoring {
            self.is_monitoring = false;
        }
        let mut samples: Vec<T> = Vec::new();
        std::mem::swap(&mut samples, &mut self.recording_samples);
        let _ = self.maybe_stop_stream();
        if samples.len() == 0 {
            return Err(String::from_str("No audio recorded"));
        }
        Ok(RawRecordedAudio { samples, sample_rate: self.sample_rate, channels: self.channels })
    }

    /// Route a batch of samples: keep them while recording; returns whether
    /// to run the visualization (while monitoring) and the speech detector
    /// (while monitoring with processing on).
    pub fn route_samples(&mut self, samples: &Vec<T>) -> (r: (bool, bool))
        ensures
            final(self).recording_samples@ == (if old(self).is_recording {
                old(self).recording_samples@ + samples@
            } else {
                old(self).recording_samples@
            }),
            r.0 == old(self).is_monitoring,
            r.1 == (old(self).is_monitoring && old(self).is_processing_enabled),
            final(self).is_recording == old(self).is_recording,
            final(self).is_monitoring == old(self).is_monitoring,
            *final(self) == (AudioStreamControl {
                recording_samples: final(self).recording_samples,
                ..*old(self)
            }),
    {
        if self.is_recording {
            let ghost start = self.recording_samples@;
            let ghost mon = self.is_monitoring;
            let ghost pe = self.is_processing_enabled;
            let ghost orig = *self;
            let mut i: usize = 0;
            while i < samples.len()
                invariant
                    *self == (AudioStreamControl { recording_samples: self.recording_samples, ..orig }),
                    self.is_recording,
                    self.is_monitoring == mon,
                    self.is_processing_enabled == pe,
                    i <= samples@.len(),
                    self.recording_samples@ == start + samples@.subrange(0, i as int),
                decreases samples@.len() - i,
            {
                self.recording_samples.push(samples[i]);
                proof {
                    assert(self.recording_samples@ =~= start + samples@.subrange(0, i + 1));
                }
                i = i + 1;
            }
            assert(samples@.subrange(0, samples@.len() as int) =~= samples@);
        }
        (self.is_monitoring, self.is_monitoring && self.is_processing_enabled)
    }
}

/// Why capture cannot start for a source type, if it cannot.
pub open spec fn source_problem(source_type: AudioSourceType, has_system_device: bool) -> Option<
    Seq<char>,
> {
    if source_type != AudioSourceType::Mixed {
        None
    } else if !has_system_device {
        Some("System device ID required for Mixed mode"@)
    } else {
        Some(
            "Mixed mode is not currently supported. System audio capture requires additional setup on Linux."@,
        )
    }
}

/// `r` reports `problem`: an error with its text, or success when there is none.
pub open spec fn reports(r: Result<(), String>, problem: Option<Seq<char>>) -> bool {
    match problem {
        Some(msg) => r matches Err(e) && e@ == msg,
        None => r is Ok,
    }
}

/// Check the source type before capture starts: a mixed source needs a
/// system device, and mixed capture is not available.
pub fn check_source(source_type: AudioSourceType, has_system_device: bool) -> (r: Result<(), String>)
    ensures
        reports(r, source_problem(source_type, has_system_device)),
{
    match source_type {
        AudioSourceType::Mixed => if !has_system_device {
            Err(String::from_str("System device ID required for Mixed mode"))
        } else {
            Err(
                String::from_str(
                    "Mixed mode is not currently supported. System audio capture requires additional setup on Linux.",
                ),
            )
        },
        _ => Ok(()),
    }
}

} // verus!
