//! Smaller engine decisions: the GPU report, what a transcription puts on
//! the clipboard, the runtime mode, binary names, and the placeholder audio
//! backend of platforms without capture.

use vstd::prelude::*;
use vstd::string::*;
use crate::device_names::{after_last, after_last_str, lowercased, to_lowercase};
use crate::text::{is_trim_of, seq_contains, str_contains, str_eq, trim};
use crate::types::{name_code, AudioSourceType, RecordingMode, RuntimeMode};

verus! {

/// `YES` or `NO`.
pub open spec fn yes_no(b: bool) -> Seq<char> {
    if b {
        "YES"@
    } else {
        "NO"@
    }
}

/// The GPU diagnostics text for whisper.cpp's system info.
pub open spec fn gpu_report(info: Seq<char>) -> Seq<char> {
    "System Info: "@ + info + "\n\nGPU Backends:\n  CUDA:   "@ + yes_no(seq_contains(info, "CUDA"@))
        + "\n  Metal:  "@ + yes_no(seq_contains(info, "METAL = 1"@)) + "\n  Vulkan: "@ + yes_no(
        seq_contains(info, "VULKAN = 1"@),
    )
}

fn yes_no_str(b: bool) -> (r: &'static str)
    ensures
        r@ == yes_no(b),
{
    if b {
        "YES"
    } else {
        "NO"
    }
}

/// Check GPU status for diagnostics, given the outcome of loading
/// whisper.cpp and of reading its system info: the first failure, or the
/// report of which GPU backends it was built with.
pub fn check_gpu(library: Result<(), String>, system_info: Result<String, String>) -> (r: Result<
    String,
    String,
>)
    ensures
        library is Err ==> (r matches Err(e) && e@ == library->Err_0@),
        library is Ok && system_info is Err ==> (r matches Err(e) && e@ == system_info->Err_0@),
        library is Ok && system_info is Ok ==> (r matches Ok(text) && text@ == gpu_report(
            system_info->Ok_0@,
        )),
{
    match library {
        Err(e) => Err(e),
        Ok(()) => match system_info {
            Err(e) => Err(e),
            Ok(info) => {
                let cuda = str_contains(info.as_str(), "CUDA");
                let metal = str_contains(info.as_str(), "METAL = 1");
                let vulkan = str_contains(info.as_str(), "VULKAN = 1");
                let text = String::from_str("System Info: ").concat(info.as_str()).concat(
                    "\n\nGPU Backends:\n  CUDA:   ",
                ).concat(yes_no_str(cuda)).concat("\n  Metal:  ").concat(yes_no_str(metal)).concat(
                    "\n  Vulkan: ",
                ).concat(yes_no_str(vulkan));
                Ok(text)
            },
        },
    }
}

/// The placeholder a transcription without speech produces.
pub open spec fn no_speech_text() -> Seq<char> {
    "(No speech detected)"@
}

/// What a transcription puts on the clipboard: its text without leading
/// and trailing white space; nothing when that is empty or the no-speech
/// placeholder.
pub fn clipboard_text(text: &str) -> (r: Option<String>)
    ensures
        match r {
            Some(t) => is_trim_of(text@, t@) && t@.len() > 0 && t@ != no_speech_text(),
            None => forall|t: Seq<char>| is_trim_of(text@, t) ==> t.len() == 0 || t == no_speech_text(),
        },
{
    let trimmed = trim(text);
    proof {
        lemma_trim_unique(text@);
    }
    if trimmed.as_str().unicode_len() == 0 || str_eq(trimmed.as_str(), "(No speech detected)") {
        None
    } else {
        Some(trimmed)
    }
}

/// There is one trim of a text.
pub proof fn lemma_trim_unique(s: Seq<char>)
    ensures
        forall|a: Seq<char>, b: Seq<char>| is_trim_of(s, a) && is_trim_of(s, b) ==> a == b,
{
    assert forall|a: Seq<char>, b: Seq<char>| is_trim_of(s, a) && is_trim_of(s, b) implies a
        == b by {
        let (lo1, hi1) = choose|lo: int, hi: int|
            #![trigger s.subrange(lo, hi)]
            0 <= lo <= hi <= s.len() && a == s.subrange(lo, hi) && (forall|k: int|
                0 <= k < lo ==> crate::text::is_white_space(#[trigger] s[k])) && (forall|k: int|
                hi <= k < s.len() ==> crate::text::is_white_space(#[trigger] s[k])) && (lo < hi
                ==> !crate::text::is_white_space(s[lo]) && !crate::text::is_white_space(s[hi - 1]));
        let (lo2, hi2) = choose|lo: int, hi: int|
            #![trigger s.subrange(lo, hi)]
            0 <= lo <= hi <= s.len() && b == s.subrange(lo, hi) && (forall|k: int|
                0 <= k < lo ==> crate::text::is_white_space(#[trigger] s[k])) && (forall|k: int|
                hi <= k < s.len() ==> crate::text::is_white_space(#[trigger] s[k])) && (lo < hi
                ==> !crate::text::is_white_space(s[lo]) && !crate::text::is_white_space(s[hi - 1]));
        if lo1 < hi1 && lo2 < hi2 {
            assert(lo1 == lo2) by {
                if lo1 < lo2 {
                    assert(crate::text::is_white_space(s[lo1]));
                } else if lo2 < lo1 {
                    assert(crate::text::is_white_space(s[lo2]));
                }
            }
            assert(hi1 == hi2) by {
                if hi1 < hi2 {
                    assert(crate::text::is_white_space(s[hi2 - 1]));
                } else if hi2 < hi1 {
                    assert(crate::text::is_white_space(s[hi1 - 1]));
                }
            }
        } else if lo1 < hi1 {
            assert(crate::text::is_white_space(s[lo1]) || true);
            if lo1 < lo2 {
                assert(crate::text::is_white_space(s[lo1]));
            } else {
                assert(lo2 <= lo1 && lo1 < hi1);
                if hi2 <= lo1 {
                    assert(crate::text::is_white_space(s[lo1]));
                } else {
                    assert(lo2 == hi2);
                    assert(crate::text::is_white_space(s[lo1]));
                }
            }
        } else if lo2 < hi2 {
            if lo2 < lo1 {
                assert(crate::text::is_white_space(s[lo2]));
            } else {
                if hi1 <= lo2 {
                    assert(crate::text::is_white_space(s[lo2]));
                } else {
                    assert(crate::text::is_white_space(s[lo2]));
                }
            }
        } else {
            assert(a =~= Seq::<char>::empty());
            assert(b =~= Seq::<char>::empty());
        }
    }
}

/// Whether to simulate a paste once the clipboard write is done: only when
/// the write succeeded and auto-paste is on, and never into a FlowSTT window.
pub fn should_paste(clipboard_written: bool, auto_paste_enabled: bool, flowstt_foreground: bool) -> (r:
    bool)
    ensures
        r == (clipboard_written && auto_paste_enabled && !flowstt_foreground),
{
    clipboard_written && auto_paste_enabled && !flowstt_foreground
}

/// The runtime mode a lower-case setting names: `development`/`dev` or
/// `production`/`prod`.
pub open spec fn lowered_runtime_mode(m: Seq<char>) -> Option<RuntimeMode> {
    if m == "development"@ || m == "dev"@ {
        Some(RuntimeMode::Development)
    } else if m == "production"@ || m == "prod"@ {
        Some(RuntimeMode::Production)
    } else {
        None
    }
}

/// The runtime mode an environment setting names, in any case.
pub open spec fn named_runtime_mode(setting: Seq<char>) -> Option<RuntimeMode> {
    lowered_runtime_mode(lowercased(setting))
}

/// The runtime mode a setting already in lower case names.
pub fn runtime_mode_named(m: &str) -> (r: Option<RuntimeMode>)
    ensures
        r == lowered_runtime_mode(m@),
{
    if str_eq(m, "development") || str_eq(m, "dev") {
        Some(RuntimeMode::Development)
    } else if str_eq(m, "production") || str_eq(m, "prod") {
        Some(RuntimeMode::Production)
    } else {
        None
    }
}

/// The executable lies in a debug build directory.
pub open spec fn is_debug_build_path(p: Seq<char>) -> bool {
    seq_contains(p, "/target/debug/"@) || seq_contains(p, "\\target\\debug\\"@)
}

/// The executable lies in a release build directory.
pub open spec fn is_release_build_path(p: Seq<char>) -> bool {
    seq_contains(p, "/target/release/"@) || seq_contains(p, "\\target\\release\\"@)
}

/// The runtime mode: the `FLOWSTT_RUNTIME_MODE` setting when it names one;
/// else development for an executable in a debug build directory, or in a
/// release build directory of a project (a directory above it holds
/// `Cargo.toml`); else production.
pub fn detect_runtime_mode(
    setting: Option<String>,
    exe_path: Option<String>,
    in_project_tree: bool,
) -> (r: RuntimeMode)
    ensures
        r == (if setting is Some && named_runtime_mode(setting->0@) is Some {
            named_runtime_mode(setting->0@)->0
        } else if exe_path is Some && is_debug_build_path(exe_path->0@) {
            RuntimeMode::Development
        } else if exe_path is Some && is_release_build_path(exe_path->0@) && in_project_tree {
            RuntimeMode::Development
        } else {
            RuntimeMode::Production
        }),
{
    if let Some(mode) = &setting {
        let m = to_lowercase(mode.as_str());
        if let Some(named) = runtime_mode_named(m.as_str()) {
            return named;
        }
    }
    if let Some(p) = &exe_path {
        if str_contains(p.as_str(), "/target/debug/") || str_contains(p.as_str(), "\\target\\debug\\") {
            return RuntimeMode::Development;
        }
        if (str_contains(p.as_str(), "/target/release/") || str_contains(
            p.as_str(),
            "\\target\\release\\",
        )) && in_project_tree {
            return RuntimeMode::Development;
        }
    }
    RuntimeMode::Production
}

/// A binary's file name on the platform: with `.exe` on Windows.
pub fn with_exe_suffix(name: &str, windows: bool) -> (r: String)
    ensures
        r@ == (if windows {
            name@ + ".exe"@
        } else {
            name@
        }),
{
    if windows {
        String::from_str(name).concat(".exe")
    } else {
        String::from_str(name)
    }
}

/// Audio device information, independent of the platform.
pub struct PlatformAudioDevice {
    /// Device identifier
    pub id: String,
    /// Human-readable device name
    pub name: String,
    /// Source type (Input or System)
    pub source_type: AudioSourceType,
}

/// A block of interleaved audio samples as a backend hands it over; the
/// sample type is the caller's (capture uses `f32`).
pub struct AudioSamples<S> {
    /// Interleaved samples
    pub samples: Vec<S>,
    /// Number of channels (typically 2 for stereo)
    pub channels: u16,
}

/// Placeholder audio backend for platforms without capture support.
pub struct StubBackend {
    pub aec_enabled: bool,
    pub recording_mode: RecordingMode,
}

impl StubBackend {
    /// Create a new stub backend.
    pub fn new(aec_enabled: bool, recording_mode: RecordingMode) -> (r: Result<Self, String>)
        ensures
            r matches Ok(b) && b.aec_enabled == aec_enabled && b.recording_mode == recording_mode,
    {
        Ok(StubBackend { aec_enabled, recording_mode })
    }

    /// No input devices.
    pub fn list_input_devices(&self) -> (r: Vec<PlatformAudioDevice>)
        ensures
            r@.len() == 0,
    {
        Vec::new()
    }

    /// No system devices.
    pub fn list_system_devices(&self) -> (r: Vec<PlatformAudioDevice>)
        ensures
            r@.len() == 0,
    {
        Vec::new()
    }

    /// The standard rate, though nothing is captured.
    pub fn sample_rate(&self) -> (r: u32)
        ensures
            r == 48000,
    {
        48000
    }

    /// Capture is not available.
    pub fn start_capture_sources(&self, source1_id: Option<String>, source2_id: Option<String>) -> (r:
        Result<(), String>)
        ensures
            r matches Err(e) && e@
                == "Audio capture is not yet implemented for macOS. Full CoreAudio support coming soon."@,
    {
        Err(
            String::from_str(
                "Audio capture is not yet implemented for macOS. Full CoreAudio support coming soon.",
            ),
        )
    }

    /// Capture is not available.
    pub fn stop_capture(&self) -> (r: Result<(), String>)
        ensures
            r matches Err(e) && e@ == "Audio capture is not yet implemented for macOS."@,
    {
        Err(String::from_str("Audio capture is not yet implemented for macOS."))
    }

    /// No samples ever arrive.
    pub fn try_recv<S>(&self) -> (r: Option<AudioSamples<S>>)
        ensures
            r is None,
    {
        None
    }
}

/// Paths to the bundled binaries.
pub struct BundlePaths {
    /// Path to the service binary
    pub service: String,
    /// Path to the CLI binary
    pub cli: String,
}

/// The bundled binaries were not found.
pub struct BinariesNotFoundError {
    pub message: String,
}

/// The bundled binary paths, given where each was looked for, how the path
/// is shown in a message, and whether it exists: the service binary is
/// checked first.
pub fn bundle_paths(
    service: String,
    service_shown: &str,
    service_exists: bool,
    cli: String,
    cli_shown: &str,
    cli_exists: bool,
) -> (r: Result<BundlePaths, BinariesNotFoundError>)
    ensures
        !service_exists ==> (r matches Err(e) && e.message@ == "Service binary not found: "@
            + service_shown@),
        service_exists && !cli_exists ==> (r matches Err(e) && e.message@
            == "CLI binary not found: "@ + cli_shown@),
        service_exists && cli_exists ==> (r matches Ok(p) && p.service == service && p.cli
            == cli),
{
    if !service_exists {
        return Err(
            BinariesNotFoundError {
                message: String::from_str("Service binary not found: ").concat(service_shown),
            },
        );
    }
    if !cli_exists {
        return Err(
            BinariesNotFoundError {
                message: String::from_str("CLI binary not found: ").concat(cli_shown),
            },
        );
    }
    Ok(BundlePaths { service, cli })
}

/// The device test capture that is running, if any.
pub struct TestCaptureSlot {
    pub device_id: Option<String>,
}

/// What starting a device test calls for.
#[derive(Debug, Clone, Copy, PartialEq, Eq, Structural)]
pub enum TestCaptureStart {
    /// The device is already being tested: nothing to do
    AlreadyTesting,
    /// Start a capture, after stopping and joining the previous one if any
    Start { stop_previous: bool },
}

impl TestCaptureSlot {
    /// No test running.
    pub fn new() -> (r: Self)
        ensures
            r.device_id is None,
    {
        TestCaptureSlot { device_id: None }
    }
}

/// Start testing `device_id`: a no-op when that device is already being
/// tested; otherwise the previous test (if any) is stopped first.
pub fn start_test_capture(slot: &mut TestCaptureSlot, device_id: String) -> (r: TestCaptureStart)
    ensures
        (old(slot).device_id matches Some(d) && d@ == device_id@) ==> (r
            == TestCaptureStart::AlreadyTesting && final(slot).device_id == old(slot).device_id),
        !(old(slot).device_id matches Some(d) && d@ == device_id@) ==> (r
            == (TestCaptureStart::Start { stop_previous: old(slot).device_id is Some })
            && final(slot).device_id == Some(device_id)),
{
    let same = match &slot.device_id {
        Some(d) => str_eq(d.as_str(), device_id.as_str()),
        None => false,
    };
    if same {
        return TestCaptureStart::AlreadyTesting;
    }
    let stop_previous = slot.device_id.is_some();
    slot.device_id = Some(device_id);
    TestCaptureStart::Start { stop_previous }
}

/// Stop any active test capture; returns whether one was running (its
/// thread is then stopped and joined).
pub fn stop_test_capture(slot: &mut TestCaptureSlot) -> (r: bool)
    ensures
        r == old(slot).device_id is Some,
        final(slot).device_id is None,
{
    let was = slot.device_id.is_some();
    slot.device_id = None;
    was
}

/// Collects mono samples of a device test into batches of about 100ms.
pub struct LevelBatcher<T> {
    pub samples_per_update: usize,
    pub accumulated: Vec<T>,
}

impl<T: Copy> LevelBatcher<T> {
    /// Batches of a tenth of a second at `sample_rate`.
    pub fn new(sample_rate: u32) -> (r: Self)
        ensures
            r.samples_per_update == sample_rate as usize / 10,
            r.accumulated@.len() == 0,
    {
        LevelBatcher { samples_per_update: sample_rate as usize / 10, accumulated: Vec::new() }
    }

    /// Add samples; once a batch is full it is handed out (its level is then
    /// reported) and collecting starts over.
    pub fn push(&mut self, samples: &Vec<T>) -> (r: Option<Vec<T>>)
        ensures
            final(self).samples_per_update == old(self).samples_per_update,
            ({
                let all = old(self).accumulated@ + samples@;
                if all.len() >= old(self).samples_per_update {
                    r matches Some(batch) && batch@ == all && final(self).accumulated@.len() == 0
                } else {
                    r is None && final(self).accumulated@ == all
                }
            }),
    {
        let ghost start = self.accumulated@;
        let spu = self.samples_per_update;
        let mut i: usize = 0;
        while i < samples.len()
            invariant
                i <= samples@.len(),
                self.samples_per_update == spu,
                self.accumulated@ == start + samples@.subrange(0, i as int),
            decreases samples@.len() - i,
        {
            self.accumulated.push(samples[i]);
            proof {
                assert(self.accumulated@ =~= start + samples@.subrange(0, i + 1));
            }
            i = i + 1;
        }
        assert(samples@.subrange(0, samples@.len() as int) =~= samples@);
        if self.accumulated.len() >= self.samples_per_update {
            let mut batch: Vec<T> = Vec::new();
            std::mem::swap(&mut batch, &mut self.accumulated);
            Some(batch)
        } else {
            None
        }
    }
}

/// Minimum level of the log messages kept.
#[derive(Debug, Clone, Copy, PartialEq, Eq, Structural)]
pub enum LogLevel {
    Error,
    Warn,
    Info,
    Debug,
    Trace,
}

/// The filter text of a level.
pub open spec fn log_level_name(l: LogLevel) -> Seq<char> {
    match l {
        LogLevel::Error => "error"@,
        LogLevel::Warn => "warn"@,
        LogLevel::Info => "info"@,
        LogLevel::Debug => "debug"@,
        LogLevel::Trace => "trace"@,
    }
}

impl LogLevel {
    /// The filter text of the level.
    pub fn as_filter_str(&self) -> (r: &'static str)
        ensures
            r@ == log_level_name(*self),
    {
        match self {
            LogLevel::Error => "error",
            LogLevel::Warn => "warn",
            LogLevel::Info => "info",
            LogLevel::Debug => "debug",
            LogLevel::Trace => "trace",
        }
    }
}

/// The log level a name selects.
pub fn parse_log_level(level: &str) -> (r: Result<LogLevel, String>)
    ensures
        match r {
            Ok(l) => log_level_name(l) == level@,
            Err(e) => e@ == "Unknown log level: "@ + level@ && forall|l: LogLevel|
                log_level_name(l) != level@,
        },
{
    if str_eq(level, "error") {
        Ok(LogLevel::Error)
    } else if str_eq(level, "warn") {
        Ok(LogLevel::Warn)
    } else if str_eq(level, "info") {
        Ok(LogLevel::Info)
    } else if str_eq(level, "debug") {
        Ok(LogLevel::Debug)
    } else if str_eq(level, "trace") {
        Ok(LogLevel::Trace)
    } else {
        proof {
            assert forall|l: LogLevel| log_level_name(l) != level@ by {
                match l {
                    LogLevel::Error => {},
                    LogLevel::Warn => {},
                    LogLevel::Info => {},
                    LogLevel::Debug => {},
                    LogLevel::Trace => {},
                }
            }
        }
        Err(String::from_str("Unknown log level: ").concat(level))
    }
}

/// Whether a file in the log directory is one of the application's daily
/// log files.
pub fn is_app_log_file(name: &str) -> (r: bool)
    ensures
        r == (crate::text::has_prefix(name@, "flowstt-app."@) && crate::text::has_suffix(
            name@,
            ".log"@,
        )),
{
    crate::text::starts_with(name, "flowstt-app.") && crate::text::ends_with(name, ".log")
}


/// Whether the foreground window's executable is this application, so that
/// no paste is simulated into it. On Windows `exe` is the full image path
/// and its part after the last backslash counts; elsewhere `exe` is the
/// executable's file name. Names are compared in lower case.
pub fn is_app_executable(exe: &str, windows: bool) -> (r: bool)
    ensures
        windows ==> r == (lowercased(after_last(exe@, '\\')) == "flowstt-app.exe"@),
        !windows ==> r == (lowercased(exe@) == "flowstt-app"@),
{
    if windows {
        let name = to_lowercase(after_last_str(exe, '\\'));
        is_app_file_name(name.as_str(), windows)
    } else {
        let name = to_lowercase(exe);
        is_app_file_name(name.as_str(), windows)
    }
}

/// Whether an executable's file name, already in lower case, is this
/// application's.
pub fn is_app_file_name(lower_name: &str, windows: bool) -> (r: bool)
    ensures
        r == (lower_name@ == (if windows {
            "flowstt-app.exe"@
        } else {
            "flowstt-app"@
        })),
{
    if windows {
        str_eq(lower_name, "flowstt-app.exe")
    } else {
        str_eq(lower_name, "flowstt-app")
    }
}

/// Whether the command line holds the flag `flag` (such as `--headless`).
pub fn has_flag(args: &Vec<String>, flag: &str) -> (r: bool)
    ensures
        r == exists|i: int| 0 <= i < args@.len() && (#[trigger] args@[i])@ == flag@,
{
    let mut i: usize = 0;
    while i < args.len()
        invariant
            0 <= i <= args@.len(),
            forall|k: int| 0 <= k < i ==> (#[trigger] args@[k])@ != flag@,
        decreases args@.len() - i,
    {
        if str_eq(args[i].as_str(), flag) {
            return true;
        }
        i = i + 1;
    }
    false
}

/// Whether the desktop session is Wayland: a Wayland display is set, or
/// the session type is `wayland` in any case. On Wayland the web view's
/// compositing is turned off before any window opens.
pub fn is_wayland_session(display_set: bool, session_type: Option<&str>) -> (r: bool)
    ensures
        r == (display_set || (session_type matches Some(t) && lowercased(t@) == "wayland"@)),
{
    if display_set {
        return true;
    }
    match session_type {
        Some(t) => {
            let lower = to_lowercase(t);
            is_wayland_name(lower.as_str())
        },
        None => false,
    }
}

/// Whether a session type, already in lower case, is Wayland's.
pub fn is_wayland_name(lower: &str) -> (r: bool)
    ensures
        r == (lower@ == "wayland"@),
{
    str_eq(lower, "wayland")
}

/// Which window the application shows when it starts.
#[derive(Debug, Clone, Copy, PartialEq, Eq, Structural)]
pub enum StartupWindow {
    /// First run: the setup wizard, the main window hidden
    SetupWizard,
    /// Headless: only the tray icon
    TrayOnly,
    /// The main window
    Main,
}

/// The window shown at startup: the setup wizard on a first run unless
/// headless; headless shows none.
pub fn startup_window(needs_setup: bool, headless: bool) -> (r: StartupWindow)
    ensures
        needs_setup && !headless ==> r == StartupWindow::SetupWizard,
        headless ==> r == StartupWindow::TrayOnly,
        !needs_setup && !headless ==> r == StartupWindow::Main,
{
    if needs_setup && !headless {
        StartupWindow::SetupWizard
    } else if headless {
        StartupWindow::TrayOnly
    } else {
        StartupWindow::Main
    }
}

/// Whether closing the window `label` only hides it (the application keeps
/// running in the tray): the main window on Windows.
pub fn close_hides_window(label: &str, windows: bool) -> (r: bool)
    ensures
        r == (windows && label@ == "main"@),
{
    windows && str_eq(label, "main")
}

/// The kinds of event the engine hands to the application window.
#[derive(Debug, Clone, Copy, PartialEq, Eq, Structural)]
pub enum EngineEventKind {
    VisualizationData,
    TranscriptionComplete,
    SpeechStarted,
    SpeechEnded,
    CaptureStateChanged,
    ModelDownloadProgress,
    ModelDownloadComplete,
    AudioLevelUpdate,
    PttPressed,
    PttReleased,
    TranscriptionModeChanged,
    AutoModeToggled,
    HistoryEntryDeleted,
    Shutdown,
}

/// The window event each engine event is emitted as.
pub open spec fn frontend_event_name_spec(k: EngineEventKind) -> Seq<char> {
    match k {
        EngineEventKind::VisualizationData => "visualization-data"@,
        EngineEventKind::TranscriptionComplete => "transcription-complete"@,
        EngineEventKind::SpeechStarted => "speech-started"@,
        EngineEventKind::SpeechEnded => "speech-ended"@,
        EngineEventKind::CaptureStateChanged => "capture-state-changed"@,
        EngineEventKind::ModelDownloadProgress => "model-download-progress"@,
        EngineEventKind::ModelDownloadComplete => "model-download-complete"@,
        EngineEventKind::AudioLevelUpdate => "audio-level-update"@,
        EngineEventKind::PttPressed => "ptt-pressed"@,
        EngineEventKind::PttReleased => "ptt-released"@,
        EngineEventKind::TranscriptionModeChanged => "transcription-mode-changed"@,
        EngineEventKind::AutoModeToggled => "auto-mode-toggled"@,
        EngineEventKind::HistoryEntryDeleted => "history-entry-deleted"@,
        EngineEventKind::Shutdown => "service-shutdown"@,
    }
}

/// The window event an engine event is emitted as.
pub fn frontend_event_name(k: EngineEventKind) -> (r: &'static str)
    ensures
        r@ == frontend_event_name_spec(k),
{
    match k {
        EngineEventKind::VisualizationData => "visualization-data",
        EngineEventKind::TranscriptionComplete => "transcription-complete",
        EngineEventKind::SpeechStarted => "speech-started",
        EngineEventKind::SpeechEnded => "speech-ended",
        EngineEventKind::CaptureStateChanged => "capture-state-changed",
        EngineEventKind::ModelDownloadProgress => "model-download-progress",
        EngineEventKind::ModelDownloadComplete => "model-download-complete",
        EngineEventKind::AudioLevelUpdate => "audio-level-update",
        EngineEventKind::PttPressed => "ptt-pressed",
        EngineEventKind::PttReleased => "ptt-released",
        EngineEventKind::TranscriptionModeChanged => "transcription-mode-changed",
        EngineEventKind::AutoModeToggled => "auto-mode-toggled",
        EngineEventKind::HistoryEntryDeleted => "history-entry-deleted",
        EngineEventKind::Shutdown => "service-shutdown",
    }
}

/// Whether forwarding the event also cancels any modal state of the
/// windows: on Windows after a transcription, since the web view can stop
/// repainting when the push-to-talk key is released over a focused window.
pub fn cancels_window_mode(k: EngineEventKind, windows: bool) -> (r: bool)
    ensures
        r == (windows && k == EngineEventKind::TranscriptionComplete),
{
    windows && matches!(k, EngineEventKind::TranscriptionComplete)
}

/// The event kind whose window event name spells `n` (see `name_code`).
spec fn event_with_name_code(n: int) -> Option<EngineEventKind> {
    if n == 65073830823445785833584651901677139190 {
        Some(EngineEventKind::VisualizationData)
    } else if n == 18181791578343148158968584737371541418045634932 {
        Some(EngineEventKind::TranscriptionComplete)
    } else if n == 249559296896493178874322581619 {
        Some(EngineEventKind::SpeechStarted)
    } else if n == 15231742819473810465060979 {
        Some(EngineEventKind::SpeechEnded)
    } else if n == 140488285987095874297985213810775321283932387 {
        Some(EngineEventKind::CaptureStateChanged)
    } else if n == 2646794463802394188171957572331506044708119459821 {
        Some(EngineEventKind::ModelDownloadProgress)
    } else if n == 2327269322027922964322950143446448139694612494317 {
        Some(EngineEventKind::ModelDownloadComplete)
    } else if n == 67732286981025012302343920793991854817 {
        Some(EngineEventKind::AudioLevelUpdate)
    } else if n == 118999074458172336716400 {
        Some(EngineEventKind::PttPressed)
    } else if n == 15231880233582618553956976 {
        Some(EngineEventKind::PttReleased)
    } else if n == 4827140750285374864928476383361752778741428042855905652 {
        Some(EngineEventKind::TranscriptionModeChanged)
    } else if n == 523361216184495622747274689640217313 {
        Some(EngineEventKind::AutoModeToggled)
    } else if n == 140489385980256274601357698373380584645653736 {
        Some(EngineEventKind::HistoryEntryDeleted)
    } else if n == 4500119492798711202922217403626227 {
        Some(EngineEventKind::Shutdown)
    } else {
        None
    }
}

#[verifier::rlimit(50)]
proof fn lemma_event_name_decodes(k: EngineEventKind)
    ensures
        event_with_name_code(name_code(frontend_event_name_spec(k))) == Some(k),
{
    reveal_with_fuel(name_code, 27);
    match k {
        EngineEventKind::VisualizationData => {
            reveal_strlit("visualization-data");
        },
        EngineEventKind::TranscriptionComplete => {
            reveal_strlit("transcription-complete");
        },
        EngineEventKind::SpeechStarted => {
            reveal_strlit("speech-started");
        },
        EngineEventKind::SpeechEnded => {
            reveal_strlit("speech-ended");
        },
        EngineEventKind::CaptureStateChanged => {
            reveal_strlit("capture-state-changed");
        },
        EngineEventKind::ModelDownloadProgress => {
            reveal_strlit("model-download-progress");
        },
        EngineEventKind::ModelDownloadComplete => {
            reveal_strlit("model-download-complete");
        },
        EngineEventKind::AudioLevelUpdate => {
            reveal_strlit("audio-level-update");
        },
        EngineEventKind::PttPressed => {
            reveal_strlit("ptt-pressed");
        },
        EngineEventKind::PttReleased => {
            reveal_strlit("ptt-released");
        },
        EngineEventKind::TranscriptionModeChanged => {
            reveal_strlit("transcription-mode-changed");
        },
        EngineEventKind::AutoModeToggled => {
            reveal_strlit("auto-mode-toggled");
        },
        EngineEventKind::HistoryEntryDeleted => {
            reveal_strlit("history-entry-deleted");
        },
        EngineEventKind::Shutdown => {
            reveal_strlit("service-shutdown");
        },
    }
}

/// Each kind of engine event reaches the window under a name of its own.
pub proof fn lemma_frontend_event_names_distinct(a: EngineEventKind, b: EngineEventKind)
    requires
        frontend_event_name_spec(a) == frontend_event_name_spec(b),
    ensures
        a == b,
{
    lemma_event_name_decodes(a);
    lemma_event_name_decodes(b);
}

} // verus!
