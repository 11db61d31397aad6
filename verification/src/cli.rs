//! Decisions of the command-line client: argument checks, the exit code
//! of each error, how values are shown, and the answers of the setup wizard.
//!
//! Prompting, printing and talking to the service happen at the edge; the
//! text read there is handed to these functions.

use vstd::prelude::*;
use vstd::string::*;
use crate::config::{Config, ThemeMode};
use crate::text::{
    decimal, eq_ignore_ascii_case, eq_ignore_ascii_case_spec, parse_usize, parsed_usize,
    seq_contains, str_contains, str_eq, u64_to_decimal, usize_to_decimal,
};
use crate::requests::Request;
use crate::service::Response;
use crate::types::{
    AudioDevice, AudioSourceType, ConfigValues, CudaStatus, HotkeyCombination, KeyCode, ModelStatus,
    TranscribeStatus, TranscriptionMode, combination_keys, is_combination_display,
};

verus! {

/// Exit code of a general failure.
pub const EXIT_GENERAL: i32 = 1;

/// Exit code of a usage error.
pub const EXIT_USAGE: i32 = 64;

/// Error with an associated exit code.
pub struct CliError {
    pub message: String,
    pub exit_code: i32,
}

impl CliError {
    pub fn new(message: String, exit_code: i32) -> (r: Self)
        ensures
            r.message@ == message@,
            r.exit_code == exit_code,
    {
        CliError { message, exit_code }
    }

    /// A general failure (exit code 1).
    pub fn general(message: String) -> (r: Self)
        ensures
            r.message@ == message@,
            r.exit_code == EXIT_GENERAL,
    {
        Self::new(message, EXIT_GENERAL)
    }

    /// A usage error (exit code 64).
    pub fn usage(message: String) -> (r: Self)
        ensures
            r.message@ == message@,
            r.exit_code == EXIT_USAGE,
    {
        Self::new(message, EXIT_USAGE)
    }
}

/// The configuration keys the client reads and writes.
pub open spec fn is_valid_config_key(key: Seq<char>) -> bool {
    key == "transcription_mode"@ || key == "ptt_hotkeys"@ || key == "auto_toggle_hotkeys"@
}

/// Validate that a configuration key name is recognized.
pub fn validate_config_key(key: &str) -> (r: Result<(), CliError>)
    ensures
        is_valid_config_key(key@) ==> r is Ok,
        !is_valid_config_key(key@) ==> (r matches Err(e) && e.exit_code == EXIT_USAGE
            && e.message@ == "Unknown configuration key '"@ + key@
            + "'. Valid keys: transcription_mode, ptt_hotkeys, auto_toggle_hotkeys"@),
{
    if str_eq(key, "transcription_mode") || str_eq(key, "ptt_hotkeys") || str_eq(
        key,
        "auto_toggle_hotkeys",
    ) {
        Ok(())
    } else {
        let message = String::from_str("Unknown configuration key '").concat(key).concat(
            "'. Valid keys: transcription_mode, ptt_hotkeys, auto_toggle_hotkeys",
        );
        Err(CliError::usage(message))
    }
}

/// Pieces joined with `sep` between them.
pub open spec fn join_with(pieces: Seq<Seq<char>>, sep: Seq<char>) -> Seq<char>
    decreases pieces.len(),
{
    if pieces.len() == 0 {
        Seq::<char>::empty()
    } else if pieces.len() == 1 {
        pieces[0]
    } else {
        join_with(pieces.drop_last(), sep) + sep + pieces.last()
    }
}

/// `text` shows `hotkeys`: `(none)` for no hotkeys, else the display of
/// each combination, joined by `", "`.
pub open spec fn is_hotkeys_display(hotkeys: Seq<HotkeyCombination>, text: Seq<char>) -> bool {
    if hotkeys.len() == 0 {
        text == "(none)"@
    } else {
        exists|pieces: Seq<Seq<char>>|
            #![trigger join_with(pieces, ", "@)]
            pieces.len() == hotkeys.len() && (forall|i: int|
                0 <= i < hotkeys.len() ==> is_combination_display(
                    hotkeys[i].keys@,
                    #[trigger] pieces[i],
                )) && text == join_with(pieces, ", "@)
    }
}

/// Format hotkeys for human-readable display.
pub fn format_hotkeys_display(hotkeys: &Vec<HotkeyCombination>) -> (r: String)
    ensures
        is_hotkeys_display(hotkeys@, r@),
{
    if hotkeys.len() == 0 {
        return String::from_str("(none)");
    }
    let mut out = hotkeys[0].display();
    let ghost mut pieces: Seq<Seq<char>> = seq![out@];
    let mut i: usize = 1;
    while i < hotkeys.len()
        invariant
            1 <= i <= hotkeys@.len(),
            pieces.len() == i,
            forall|k: int|
                0 <= k < i ==> is_combination_display(hotkeys@[k].keys@, #[trigger] pieces[k]),
            out@ == join_with(pieces, ", "@),
        decreases hotkeys@.len() - i,
    {
        let d = hotkeys[i].display();
        proof {
            let np = pieces.push(d@);
            assert(np.drop_last() =~= pieces);
            pieces = np;
        }
        out = out.concat(", ").concat(d.as_str());
        i = i + 1;
    }
    out
}

/// Parse the value of the `transcription_mode` key.
pub fn parse_transcription_mode_value(value: &str) -> (r: Result<TranscriptionMode, CliError>)
    ensures
        value@ == "automatic"@ ==> (r matches Ok(m) && m == TranscriptionMode::Automatic),
        value@ == "push_to_talk"@ ==> (r matches Ok(m) && m == TranscriptionMode::PushToTalk),
        value@ != "automatic"@ && value@ != "push_to_talk"@ ==> (r matches Err(e)
            && e.exit_code == EXIT_USAGE && e.message@ == "Invalid value '"@ + value@
            + "' for transcription_mode. Expected: automatic, push_to_talk"@),
{
    proof {
        reveal_strlit("automatic");
        reveal_strlit("push_to_talk");
        assert("automatic"@.len() != "push_to_talk"@.len());
    }
    if str_eq(value, "automatic") {
        Ok(TranscriptionMode::Automatic)
    } else if str_eq(value, "push_to_talk") {
        Ok(TranscriptionMode::PushToTalk)
    } else {
        let message = String::from_str("Invalid value '").concat(value).concat(
            "' for transcription_mode. Expected: automatic, push_to_talk",
        );
        Err(CliError::usage(message))
    }
}

/// Whether a value given for `auto_toggle_hotkeys` means "no hotkeys".
pub fn is_no_hotkeys_value(value: &str) -> (r: bool)
    ensures
        r == (value@ == "null"@ || value@ == "none"@ || value@ == "[]"@),
{
    str_eq(value, "null") || str_eq(value, "none") || str_eq(value, "[]")
}

/// The mode's name in the configuration.
pub open spec fn mode_config_name_spec(mode: TranscriptionMode) -> Seq<char> {
    match mode {
        TranscriptionMode::Automatic => "automatic"@,
        TranscriptionMode::PushToTalk => "push_to_talk"@,
    }
}

/// The mode as the configuration shows it.
pub fn mode_config_name(mode: TranscriptionMode) -> (r: &'static str)
    ensures
        r@ == mode_config_name_spec(mode),
{
    match mode {
        TranscriptionMode::Automatic => "automatic",
        TranscriptionMode::PushToTalk => "push_to_talk",
    }
}

/// A parsed value for one configuration key.
pub enum ConfigSetting {
    TranscriptionMode(TranscriptionMode),
    PttHotkeys(Vec<HotkeyCombination>),
    AutoToggleHotkeys(Vec<HotkeyCombination>),
}

/// The request that writes `setting` through the running service.
pub fn setting_request(setting: ConfigSetting) -> (r: Request)
    ensures
        match setting {
            ConfigSetting::TranscriptionMode(m) => r == Request::SetTranscriptionMode { mode: m },
            ConfigSetting::PttHotkeys(h) => r == Request::SetPushToTalkHotkeys { hotkeys: h },
            ConfigSetting::AutoToggleHotkeys(h) => r == Request::SetAutoToggleHotkeys { hotkeys: h },
        },
{
    match setting {
        ConfigSetting::TranscriptionMode(m) => Request::SetTranscriptionMode { mode: m },
        ConfigSetting::PttHotkeys(h) => Request::SetPushToTalkHotkeys { hotkeys: h },
        ConfigSetting::AutoToggleHotkeys(h) => Request::SetAutoToggleHotkeys { hotkeys: h },
    }
}

/// Write `setting` into the stored configuration (the offline path): the
/// field of its key takes the value, every other field is kept.
pub fn apply_setting(config: &mut Config, setting: ConfigSetting)
    ensures
        match setting {
            ConfigSetting::TranscriptionMode(m) => *final(config) == (Config {
                transcription_mode: m,
                ..*old(config)
            }),
            ConfigSetting::PttHotkeys(h) => *final(config) == (Config {
                ptt_hotkeys: h,
                ..*old(config)
            }),
            ConfigSetting::AutoToggleHotkeys(h) => *final(config) == (Config {
                auto_toggle_hotkeys: h,
                ..*old(config)
            }),
        },
{
    match setting {
        ConfigSetting::TranscriptionMode(m) => config.transcription_mode = m,
        ConfigSetting::PttHotkeys(h) => config.ptt_hotkeys = h,
        ConfigSetting::AutoToggleHotkeys(h) => config.auto_toggle_hotkeys = h,
    }
}

/// The key a setting is written under.
pub fn setting_key(setting: &ConfigSetting) -> (r: &'static str)
    ensures
        r@ == match *setting {
            ConfigSetting::TranscriptionMode(_) => "transcription_mode"@,
            ConfigSetting::PttHotkeys(_) => "ptt_hotkeys"@,
            ConfigSetting::AutoToggleHotkeys(_) => "auto_toggle_hotkeys"@,
        },
{
    match setting {
        ConfigSetting::TranscriptionMode(_) => "transcription_mode",
        ConfigSetting::PttHotkeys(_) => "ptt_hotkeys",
        ConfigSetting::AutoToggleHotkeys(_) => "auto_toggle_hotkeys",
    }
}

/// The line that confirms a written setting: `Set <key> = <value>`, the
/// value shown as the configuration shows it.
pub fn setting_confirmation(setting: &ConfigSetting) -> (r: String)
    ensures
        match *setting {
            ConfigSetting::TranscriptionMode(m) => r@ == "Set transcription_mode = "@
                + mode_config_name_spec(m),
            ConfigSetting::PttHotkeys(h) => exists|t: Seq<char>|
                #![trigger is_hotkeys_display(h@, t)]
                is_hotkeys_display(h@, t) && r@ == "Set ptt_hotkeys = "@ + t,
            ConfigSetting::AutoToggleHotkeys(h) => exists|t: Seq<char>|
                #![trigger is_hotkeys_display(h@, t)]
                is_hotkeys_display(h@, t) && r@ == "Set auto_toggle_hotkeys = "@ + t,
        },
{
    match setting {
        ConfigSetting::TranscriptionMode(m) => String::from_str("Set transcription_mode = ").concat(
            mode_config_name(*m),
        ),
        ConfigSetting::PttHotkeys(h) => {
            let t = format_hotkeys_display(h);
            String::from_str("Set ptt_hotkeys = ").concat(t.as_str())
        },
        ConfigSetting::AutoToggleHotkeys(h) => {
            let t = format_hotkeys_display(h);
            String::from_str("Set auto_toggle_hotkeys = ").concat(t.as_str())
        },
    }
}

/// The configuration values read from the stored configuration, when the
/// service is not running.
pub fn stored_config_values(config: Config) -> (r: ConfigValues)
    ensures
        r.transcription_mode == config.transcription_mode,
        r.ptt_hotkeys == config.ptt_hotkeys,
        r.auto_toggle_hotkeys == config.auto_toggle_hotkeys,
        r.auto_paste_enabled == config.auto_paste_enabled,
        r.auto_paste_delay_ms == config.auto_paste_delay_ms,
{
    ConfigValues {
        transcription_mode: config.transcription_mode,
        ptt_hotkeys: config.ptt_hotkeys,
        auto_toggle_hotkeys: config.auto_toggle_hotkeys,
        auto_paste_enabled: config.auto_paste_enabled,
        auto_paste_delay_ms: config.auto_paste_delay_ms,
    }
}

/// The configuration values of the service's answer; an error answer fails
/// with its message, any other with `Unexpected response from service`.
pub fn expect_config_values(response: Response) -> (r: Result<ConfigValues, CliError>)
    ensures
        match response {
            Response::ConfigValues(v) => r == Ok::<ConfigValues, CliError>(v),
            Response::Error { message } => r matches Err(e) && is_general_error(e, message@),
            _ => r matches Err(e) && is_general_error(e, "Unexpected response from service"@),
        },
{
    match response {
        Response::ConfigValues(v) => Ok(v),
        Response::Error { message } => Err(CliError::general(message)),
        _ => Err(CliError::general(String::from_str("Unexpected response from service"))),
    }
}

/// The text `config get <key>` prints for a valid key.
pub fn config_value_text(values: &ConfigValues, key: &str) -> (r: String)
    requires
        is_valid_config_key(key@),
    ensures
        key@ == "transcription_mode"@ ==> r@ == mode_config_name_spec(values.transcription_mode),
        key@ == "ptt_hotkeys"@ ==> is_hotkeys_display(values.ptt_hotkeys@, r@),
        key@ == "auto_toggle_hotkeys"@ ==> is_hotkeys_display(values.auto_toggle_hotkeys@, r@),
{
    proof {
        reveal_strlit("transcription_mode");
        reveal_strlit("ptt_hotkeys");
        reveal_strlit("auto_toggle_hotkeys");
        assert("transcription_mode"@.len() != "ptt_hotkeys"@.len());
        assert("transcription_mode"@.len() != "auto_toggle_hotkeys"@.len());
        assert("ptt_hotkeys"@.len() != "auto_toggle_hotkeys"@.len());
    }
    if str_eq(key, "transcription_mode") {
        String::from_str(mode_config_name(values.transcription_mode))
    } else if str_eq(key, "ptt_hotkeys") {
        format_hotkeys_display(&values.ptt_hotkeys)
    } else {
        format_hotkeys_display(&values.auto_toggle_hotkeys)
    }
}

/// The lines `config show` prints: each key, a colon and its value.
pub fn config_show_lines(values: &ConfigValues) -> (r: Vec<String>)
    ensures
        r@.len() == 3,
        r@[0]@ == "transcription_mode: "@ + mode_config_name_spec(values.transcription_mode),
        exists|t: Seq<char>|
            #![trigger is_hotkeys_display(values.ptt_hotkeys@, t)]
            is_hotkeys_display(values.ptt_hotkeys@, t) && r@[1]@ == "ptt_hotkeys: "@ + t,
        exists|t: Seq<char>|
            #![trigger is_hotkeys_display(values.auto_toggle_hotkeys@, t)]
            is_hotkeys_display(values.auto_toggle_hotkeys@, t) && r@[2]@ == "auto_toggle_hotkeys: "@
                + t,
{
    let mut lines: Vec<String> = Vec::new();
    lines.push(String::from_str("transcription_mode: ").concat(mode_config_name(values.transcription_mode)));
    let p = format_hotkeys_display(&values.ptt_hotkeys);
    lines.push(String::from_str("ptt_hotkeys: ").concat(p.as_str()));
    let a = format_hotkeys_display(&values.auto_toggle_hotkeys);
    lines.push(String::from_str("auto_toggle_hotkeys: ").concat(a.as_str()));
    lines
}

/// The mode as the status line shows it.
pub fn mode_status_name(mode: TranscriptionMode) -> (r: &'static str)
    ensures
        r@ == match mode {
            TranscriptionMode::Automatic => "automatic"@,
            TranscriptionMode::PushToTalk => "push-to-talk"@,
        },
{
    match mode {
        TranscriptionMode::Automatic => "automatic",
        TranscriptionMode::PushToTalk => "push-to-talk",
    }
}

/// The mode as a title.
pub fn mode_title(mode: TranscriptionMode) -> (r: &'static str)
    ensures
        r@ == match mode {
            TranscriptionMode::Automatic => "Automatic"@,
            TranscriptionMode::PushToTalk => "Push-to-Talk"@,
        },
{
    match mode {
        TranscriptionMode::Automatic => "Automatic",
        TranscriptionMode::PushToTalk => "Push-to-Talk",
    }
}

/// The message when transcription is started without a source.
pub open spec fn no_source_message() -> Seq<char> {
    "At least one audio source is required. Use 'flowstt list' to see devices."@
}

/// Transcription needs at least one audio source.
pub fn check_transcribe_sources(source1: &Option<String>, source2: &Option<String>) -> (r: Result<
    (),
    CliError,
>)
    ensures
        (source1 is None && source2 is None) ==> (r matches Err(e) && e.exit_code
            == EXIT_GENERAL && e.message@ == no_source_message()),
        (source1 is Some || source2 is Some) ==> r is Ok,
{
    if source1.is_none() && source2.is_none() {
        Err(
            CliError::general(
                String::from_str(
                    "At least one audio source is required. Use 'flowstt list' to see devices.",
                ),
            ),
        )
    } else {
        Ok(())
    }
}

/// What the client does with an error answer to a download request: the
/// model being there already is only a notice, any other error fails.
pub fn download_error_is_notice(message: &str) -> (r: bool)
    ensures
        r == seq_contains(message@, "already downloaded"@),
{
    str_contains(message, "already downloaded")
}

/// The setup wizard runs again only when the (trimmed) answer is `y`.
pub fn setup_rerun_confirmed(answer: &str) -> (r: bool)
    ensures
        r == eq_ignore_ascii_case_spec(answer@, "y"@),
{
    eq_ignore_ascii_case(answer, "y")
}

/// The model download is accepted on an empty (trimmed) answer or `y`.
pub fn setup_download_accepted(answer: &str) -> (r: bool)
    ensures
        r == (answer@.len() == 0 || eq_ignore_ascii_case_spec(answer@, "y"@)),
{
    answer.unicode_len() == 0 || eq_ignore_ascii_case(answer, "y")
}

/// The device picked by the (trimmed) answer, a 1-based choice among
/// `count` devices, as a 0-based index; `None` when the answer is not a
/// number in range.
pub fn setup_device_index(answer: &str, count: usize) -> (r: Option<usize>)
    ensures
        match parsed_usize(answer@) {
            Some(c) => if 1 <= c <= count {
                r == Some((c - 1) as usize)
            } else {
                r is None
            },
            None => r is None,
        },
{
    match parse_usize(answer) {
        Some(c) => if c >= 1 && c <= count {
            Some(c - 1)
        } else {
            None
        },
        None => None,
    }
}

/// The mode picked by the (trimmed) answer: `1` is Automatic, anything
/// else push-to-talk.
pub fn setup_mode_choice(answer: &str) -> (r: TranscriptionMode)
    ensures
        r == (if answer@ == "1"@ {
            TranscriptionMode::Automatic
        } else {
            TranscriptionMode::PushToTalk
        }),
{
    if str_eq(answer, "1") {
        TranscriptionMode::Automatic
    } else {
        TranscriptionMode::PushToTalk
    }
}

/// The push-to-talk binding picked in setup: the named key when the answer
/// names one, else the default key.
pub fn setup_ptt_choice(parsed_key: Option<KeyCode>) -> (r: HotkeyCombination)
    ensures
        r.keys@ == seq![
            match parsed_key {
                Some(k) => k,
                None => KeyCode::RightAlt,
            },
        ],
{
    match parsed_key {
        Some(k) => HotkeyCombination::single(k),
        None => HotkeyCombination::single(KeyCode::RightAlt),
    }
}

/// Whether the (trimmed) answer turns the toggle hotkey off.
pub open spec fn disables_toggle(answer: Seq<char>) -> bool {
    eq_ignore_ascii_case_spec(answer, "none"@) || eq_ignore_ascii_case_spec(answer, "disabled"@)
}

/// The auto-mode toggle hotkeys picked in setup: none when disabled, the
/// named key when the answer names one, else F13.
pub fn setup_toggle_choice(answer: &str, parsed_key: Option<KeyCode>) -> (r: Vec<
    HotkeyCombination,
>)
    ensures
        combination_keys(r@) == (if disables_toggle(answer@) {
            Seq::<Seq<KeyCode>>::empty()
        } else {
            match parsed_key {
                Some(k) => seq![seq![k]],
                None => seq![seq![KeyCode::F13]],
            }
        }),
{
    let mut v: Vec<HotkeyCombination> = Vec::new();
    if eq_ignore_ascii_case(answer, "none") || eq_ignore_ascii_case(answer, "disabled") {
        assert(combination_keys(v@) =~= Seq::<Seq<KeyCode>>::empty());
        return v;
    }
    match parsed_key {
        Some(k) => {
            v.push(HotkeyCombination::single(k));
            assert(combination_keys(v@) =~= seq![seq![k]]);
        },
        None => {
            v.push(HotkeyCombination::single(KeyCode::F13));
            assert(combination_keys(v@) =~= seq![seq![KeyCode::F13]]);
        },
    }
    v
}

/// The configuration the setup wizard saves: the chosen mode and hotkeys,
/// the other settings at their defaults.
pub fn setup_config(
    mode: TranscriptionMode,
    hotkey: HotkeyCombination,
    toggle_hotkeys: Vec<HotkeyCombination>,
) -> (r: Config)
    ensures
        r.transcription_mode == mode,
        r.ptt_hotkeys@ == seq![hotkey],
        r.auto_toggle_hotkeys@ == toggle_hotkeys@,
        r.auto_paste_enabled,
        r.auto_paste_delay_ms == 50,
        r.theme_mode == ThemeMode::Auto,
{
    let base = Config::default_with_hotkeys();
    let mut ptt_hotkeys: Vec<HotkeyCombination> = Vec::new();
    ptt_hotkeys.push(hotkey);
    Config {
        transcription_mode: mode,
        ptt_hotkeys,
        auto_toggle_hotkeys: toggle_hotkeys,
        auto_paste_enabled: base.auto_paste_enabled,
        auto_paste_delay_ms: base.auto_paste_delay_ms,
        theme_mode: base.theme_mode,
    }
}

/// The heading of a device listing; a non-empty listing's heading ends in a
/// line break, so that a blank line follows it.
pub open spec fn devices_heading_text(count: usize) -> Seq<char> {
    if count == 0 {
        "No audio devices found"@
    } else if count == 1 {
        "1 device found:\n"@
    } else {
        decimal(count as nat) + " devices found:\n"@
    }
}

/// The heading of a device listing.
pub fn devices_heading(count: usize) -> (r: String)
    ensures
        r@ == devices_heading_text(count),
{
    if count == 0 {
        String::from_str("No audio devices found")
    } else if count == 1 {
        String::from_str("1 device found:\n")
    } else {
        usize_to_decimal(count).concat(" devices found:\n")
    }
}

/// The badge shown before a device of a source type.
pub fn source_badge(source_type: AudioSourceType) -> (r: &'static str)
    ensures
        r@ == match source_type {
            AudioSourceType::Input => "[input]"@,
            AudioSourceType::System => "[system]"@,
            AudioSourceType::Mixed => "[mixed]"@,
        },
{
    match source_type {
        AudioSourceType::Input => "[input]",
        AudioSourceType::System => "[system]",
        AudioSourceType::Mixed => "[mixed]",
    }
}

/// The lines of the status display: capture state and mode, the sources
/// and error when there are any, and speech and queue depth while capturing.
pub open spec fn status_text(status: TranscribeStatus) -> Seq<Seq<char>> {
    let head = seq![
        "Capture: "@ + (if status.capturing {
            "capturing"@
        } else {
            "idle"@
        }),
        "Mode: "@ + match status.transcription_mode {
            TranscriptionMode::Automatic => "automatic"@,
            TranscriptionMode::PushToTalk => "push-to-talk"@,
        },
    ];
    let s1 = match status.source1_id {
        Some(s) => seq!["Source: "@ + s@],
        None => Seq::empty(),
    };
    let s2 = match status.source2_id {
        Some(s) => seq!["Source 2: "@ + s@],
        None => Seq::empty(),
    };
    let err = match status.error {
        Some(e) => seq!["Error: "@ + e@],
        None => Seq::empty(),
    };
    let live = if status.capturing {
        seq![
            "Speech: "@ + (if status.in_speech {
                "speaking"@
            } else {
                "silent"@
            }),
            "Queue depth: "@ + decimal(status.queue_depth as nat),
        ]
    } else {
        Seq::empty()
    };
    head + s1 + s2 + err + live
}

/// The views of some lines.
pub open spec fn line_views(v: Seq<String>) -> Seq<Seq<char>> {
    v.map_values(|s: String| s@)
}

/// The lines of the status display.
pub fn status_lines(status: &TranscribeStatus) -> (r: Vec<String>)
    ensures
        line_views(r@) == status_text(*status),
{
    let mut lines: Vec<String> = Vec::new();
    let capture = if status.capturing {
        "capturing"
    } else {
        "idle"
    };
    lines.push(String::from_str("Capture: ").concat(capture));
    lines.push(String::from_str("Mode: ").concat(mode_status_name(status.transcription_mode)));
    let ghost l0 = lines@;
    if let Some(s) = &status.source1_id {
        lines.push(String::from_str("Source: ").concat(s.as_str()));
    }
    let ghost l1 = lines@;
    if let Some(s) = &status.source2_id {
        lines.push(String::from_str("Source 2: ").concat(s.as_str()));
    }
    let ghost l2 = lines@;
    if let Some(e) = &status.error {
        lines.push(String::from_str("Error: ").concat(e.as_str()));
    }
    let ghost l3 = lines@;
    if status.capturing {
        let speech = if status.in_speech {
            "speaking"
        } else {
            "silent"
        };
        lines.push(String::from_str("Speech: ").concat(speech));
        lines.push(String::from_str("Queue depth: ").concat(usize_to_decimal(status.queue_depth).as_str()));
    }
    assert(line_views(lines@) =~= status_text(*status));
    lines
}

/// The lines of the model status display; a blank line comes before the
/// hint to download a missing model.
pub fn model_status_lines(available: bool, path: &str) -> (r: Vec<String>)
    ensures
        line_views(r@) == seq![
            "Model: "@ + (if available {
                "available"@
            } else {
                "not available"@
            }),
            "Path: "@ + path@,
        ] + (if available {
            Seq::<Seq<char>>::empty()
        } else {
            seq![""@, "Run 'flowstt model download' to download the model"@]
        }),
{
    let mut lines: Vec<String> = Vec::new();
    let shown = if available {
        "available"
    } else {
        "not available"
    };
    lines.push(String::from_str("Model: ").concat(shown));
    lines.push(String::from_str("Path: ").concat(path));
    if !available {
        lines.push(String::new());
        lines.push(String::from_str("Run 'flowstt model download' to download the model"));
    }
    proof {
        reveal_strlit("");
        assert(""@ =~= Seq::<char>::empty());
        if !available {
            assert(lines@[2]@ =~= ""@);
        }
        assert(line_views(lines@) =~= seq![
            "Model: "@ + (if available {
                "available"@
            } else {
                "not available"@
            }),
            "Path: "@ + path@,
        ] + (if available {
            Seq::<Seq<char>>::empty()
        } else {
            seq![""@, "Run 'flowstt model download' to download the model"@]
        }));
    }
    lines
}

/// The lines of the GPU status display.
pub fn gpu_status_lines(build_enabled: bool, runtime_available: bool, system_info: &str) -> (r: Vec<
    String,
>)
    ensures
        line_views(r@) == seq![
            "GPU Acceleration"@,
            "  Build: "@ + (if build_enabled {
                "enabled"@
            } else {
                "disabled"@
            }),
            "  Runtime: "@ + (if runtime_available {
                "available"@
            } else {
                "not available"@
            }),
            "System Info:"@,
            "  "@ + system_info@,
        ],
{
    let mut lines: Vec<String> = Vec::new();
    lines.push(String::from_str("GPU Acceleration"));
    let build = if build_enabled {
        "enabled"
    } else {
        "disabled"
    };
    lines.push(String::from_str("  Build: ").concat(build));
    let runtime = if runtime_available {
        "available"
    } else {
        "not available"
    };
    lines.push(String::from_str("  Runtime: ").concat(runtime));
    lines.push(String::from_str("System Info:"));
    lines.push(String::from_str("  ").concat(system_info));
    proof {
        assert(line_views(lines@) =~= seq![
            "GPU Acceleration"@,
            "  Build: "@ + (if build_enabled {
                "enabled"@
            } else {
                "disabled"@
            }),
            "  Runtime: "@ + (if runtime_available {
                "available"@
            } else {
                "not available"@
            }),
            "System Info:"@,
            "  "@ + system_info@,
        ]);
    }
    lines
}

/// An event of the service's event stream, as the client sees it.
pub enum StreamEvent {
    /// A segment was transcribed
    TranscriptionComplete { text: String },
    /// Speech started
    SpeechStarted,
    /// Speech ended after `duration_ms`
    SpeechEnded { duration_ms: u64 },
    /// Capture started or stopped, possibly with an error
    CaptureStateChanged { capturing: bool, error: Option<String> },
    /// The service is shutting down
    Shutdown,
    /// Visualization, push-to-talk and other events
    Other,
}

/// What the client does with an event while streaming transcriptions.
pub enum StreamAction {
    /// Print a line on standard output
    Print(String),
    /// Print a line on standard error
    Note(String),
    /// Print a line on standard error and stop streaming
    NoteAndStop(String),
    /// Stop streaming
    Stop,
    /// Nothing to do
    Ignore,
}

/// The client's reaction to one streamed event. With JSON output, a
/// transcription is printed by the caller as JSON instead.
pub fn stream_action(event: StreamEvent, quiet: bool, verbose: bool) -> (r: StreamAction)
    ensures
        match event {
            StreamEvent::TranscriptionComplete { text } => r matches StreamAction::Print(t)
                && t@ == text@,
            StreamEvent::SpeechStarted => if verbose {
                r matches StreamAction::Note(t) && t@ == "[speech started]"@
            } else {
                r is Ignore
            },
            StreamEvent::SpeechEnded { duration_ms } => if verbose {
                r matches StreamAction::Note(t) && t@ == "[speech ended: "@ + decimal(
                    duration_ms as nat,
                ) + "ms]"@
            } else {
                r is Ignore
            },
            StreamEvent::CaptureStateChanged { capturing, error } => if capturing {
                r is Ignore
            } else {
                match error {
                    Some(e) => r matches StreamAction::NoteAndStop(t) && t@ == "Capture error: "@
                        + e@,
                    None => if quiet {
                        r is Stop
                    } else {
                        r matches StreamAction::NoteAndStop(t) && t@ == "Capture stopped"@
                    },
                }
            },
            StreamEvent::Shutdown => if quiet {
                r is Stop
            } else {
                r matches StreamAction::NoteAndStop(t) && t@ == "Service shutting down"@
            },
            StreamEvent::Other => r is Ignore,
        },
{
    match event {
        StreamEvent::TranscriptionComplete { text } => StreamAction::Print(text),
        StreamEvent::SpeechStarted => if verbose {
            StreamAction::Note(String::from_str("[speech started]"))
        } else {
            StreamAction::Ignore
        },
        StreamEvent::SpeechEnded { duration_ms } => if verbose {
            StreamAction::Note(
                String::from_str("[speech ended: ").concat(u64_to_decimal(duration_ms).as_str()).concat(
                    "ms]",
                ),
            )
        } else {
            StreamAction::Ignore
        },
        StreamEvent::CaptureStateChanged { capturing, error } => if capturing {
            StreamAction::Ignore
        } else {
            match error {
                Some(e) => StreamAction::NoteAndStop(
                    String::from_str("Capture error: ").concat(e.as_str()),
                ),
                None => if quiet {
                    StreamAction::Stop
                } else {
                    StreamAction::NoteAndStop(String::from_str("Capture stopped"))
                },
            }
        },
        StreamEvent::Shutdown => if quiet {
            StreamAction::Stop
        } else {
            StreamAction::NoteAndStop(String::from_str("Service shutting down"))
        },
        StreamEvent::Other => StreamAction::Ignore,
    }
}

/// `e` is a general failure (exit code 1) with message `msg`.
pub open spec fn is_general_error(e: CliError, msg: Seq<char>) -> bool {
    e.exit_code == EXIT_GENERAL && e.message@ == msg
}

/// The failure for an answer of the wrong kind: the service's own error
/// message, or `Unexpected response`.
pub open spec fn answer_failure(response: Response, e: CliError) -> bool {
    match response {
        Response::Error { message } => is_general_error(e, message@),
        _ => is_general_error(e, "Unexpected response"@),
    }
}

fn unexpected(response: Response) -> (e: CliError)
    ensures
        answer_failure(response, e),
{
    match response {
        Response::Error { message } => CliError::general(message),
        _ => CliError::general(String::from_str("Unexpected response")),
    }
}

/// The devices of a device-listing answer.
pub fn expect_devices(response: Response) -> (r: Result<Vec<AudioDevice>, CliError>)
    ensures
        match response {
            Response::Devices { devices } => r matches Ok(d) && d@ == devices@,
            _ => r matches Err(e) && answer_failure(response, e),
        },
{
    match response {
        Response::Devices { devices } => Ok(devices),
        other => Err(unexpected(other)),
    }
}

/// The status of a status answer.
pub fn expect_status(response: Response) -> (r: Result<TranscribeStatus, CliError>)
    ensures
        match response {
            Response::Status(st) => r matches Ok(s) && s == st,
            _ => r matches Err(e) && answer_failure(response, e),
        },
{
    match response {
        Response::Status(st) => Ok(st),
        other => Err(unexpected(other)),
    }
}

/// The model status of a model-status answer.
pub fn expect_model_status(response: Response) -> (r: Result<ModelStatus, CliError>)
    ensures
        match response {
            Response::ModelStatus(st) => r matches Ok(s) && s == st,
            _ => r matches Err(e) && answer_failure(response, e),
        },
{
    match response {
        Response::ModelStatus(st) => Ok(st),
        other => Err(unexpected(other)),
    }
}

/// The GPU status of a GPU-status answer.
pub fn expect_cuda_status(response: Response) -> (r: Result<CudaStatus, CliError>)
    ensures
        match response {
            Response::CudaStatus(st) => r matches Ok(s) && s == st,
            _ => r matches Err(e) && answer_failure(response, e),
        },
{
    match response {
        Response::CudaStatus(st) => Ok(st),
        other => Err(unexpected(other)),
    }
}

/// An answer that should be a plain success.
pub fn expect_ok(response: Response) -> (r: Result<(), CliError>)
    ensures
        match response {
            Response::Success => r is Ok,
            _ => r matches Err(e) && answer_failure(response, e),
        },
{
    match response {
        Response::Success => Ok(()),
        other => Err(unexpected(other)),
    }
}

/// What a download request came to.
#[derive(Debug, Clone, Copy, PartialEq, Eq, Structural)]
pub enum DownloadOutcome {
    /// The download started
    Started,
    /// The model was already there
    AlreadyDownloaded,
}

/// The outcome of a download request: a model already on disk is only a
/// notice; any other error fails.
pub fn download_outcome(response: Response) -> (r: Result<DownloadOutcome, CliError>)
    ensures
        match response {
            Response::Success => r == Ok::<DownloadOutcome, CliError>(DownloadOutcome::Started),
            Response::Error { message } => if seq_contains(message@, "already downloaded"@) {
                r == Ok::<DownloadOutcome, CliError>(DownloadOutcome::AlreadyDownloaded)
            } else {
                r matches Err(e) && is_general_error(e, message@)
            },
            _ => r matches Err(e) && is_general_error(e, "Unexpected response"@),
        },
{
    match response {
        Response::Success => Ok(DownloadOutcome::Started),
        Response::Error { message } => {
            if download_error_is_notice(message.as_str()) {
                Ok(DownloadOutcome::AlreadyDownloaded)
            } else {
                Err(CliError::general(message))
            }
        },
        _ => Err(CliError::general(String::from_str("Unexpected response"))),
    }
}

/// Retries after the application was started: one every 100 ms, for up to
/// five seconds.
pub const SPAWN_RETRIES: u32 = 50;

/// What the client does next while connecting to the application.
#[derive(Debug, Clone, Copy, PartialEq, Eq, Structural)]
pub enum ConnectAction {
    /// Connected: go on
    Done,
    /// Not running: start it headless, wait 100 ms and try again
    SpawnAndRetry,
    /// Still not up: wait 100 ms and try again
    Retry,
    /// It did not come up in time
    TimedOut,
}

/// Connecting to the application, starting it when it is not running.
pub struct ConnectOrSpawn {
    /// Whether the application was started
    pub spawned: bool,
    /// Connection attempts made since it was started
    pub retries: u32,
}

impl ConnectOrSpawn {
    /// Before the first connection attempt.
    pub fn new() -> (r: Self)
        ensures
            !r.spawned,
            r.retries == 0,
    {
        ConnectOrSpawn { spawned: false, retries: 0 }
    }

    /// Well-formed: no attempts before the start, never more than allowed.
    pub open spec fn wf(&self) -> bool {
        &&& self.retries <= SPAWN_RETRIES
        &&& !self.spawned ==> self.retries == 0
    }

    /// The outcome of a connection attempt decides what comes next: a
    /// failed first attempt starts the application, a failed attempt after
    /// that is retried until the retries run out.
    pub fn step(&mut self, connected: bool) -> (r: ConnectAction)
        requires
            old(self).wf(),
        ensures
            final(self).wf(),
            (*final(self), r) == connect_step(*old(self), connected),
    {
        if connected {
            ConnectAction::Done
        } else if !self.spawned {
            self.spawned = true;
            self.retries = 1;
            ConnectAction::SpawnAndRetry
        } else if self.retries < SPAWN_RETRIES {
            self.retries = self.retries + 1;
            ConnectAction::Retry
        } else {
            ConnectAction::TimedOut
        }
    }
}

/// One connection attempt's effect: the next state and what to do.
pub open spec fn connect_step(s: ConnectOrSpawn, connected: bool) -> (ConnectOrSpawn, ConnectAction) {
    if connected {
        (s, ConnectAction::Done)
    } else if !s.spawned {
        (ConnectOrSpawn { spawned: true, retries: 1 }, ConnectAction::SpawnAndRetry)
    } else if s.retries < SPAWN_RETRIES {
        (ConnectOrSpawn { spawned: true, retries: (s.retries + 1) as u32 }, ConnectAction::Retry)
    } else {
        (s, ConnectAction::TimedOut)
    }
}

/// The state after `n` failed attempts from the start.
pub open spec fn after_failures(n: nat) -> ConnectOrSpawn
    decreases n,
{
    if n == 0 {
        ConnectOrSpawn { spawned: false, retries: 0 }
    } else {
        connect_step(after_failures((n - 1) as nat), false).0
    }
}

/// When the application never answers, the client starts it once, on the
/// first failure, retries until it has tried `SPAWN_RETRIES` times since
/// the start, and then gives up (and keeps giving up).
pub proof fn lemma_connect_gives_up(n: nat)
    requires
        n >= 1,
    ensures
        after_failures(n).spawned,
        after_failures(n).retries == (if n <= SPAWN_RETRIES {
            n
        } else {
            SPAWN_RETRIES as nat
        }),
        connect_step(after_failures((n - 1) as nat), false).1 == (if n == 1 {
            ConnectAction::SpawnAndRetry
        } else if n <= SPAWN_RETRIES {
            ConnectAction::Retry
        } else {
            ConnectAction::TimedOut
        }),
    decreases n,
{
    if n > 1 {
        lemma_connect_gives_up((n - 1) as nat);
    }
}

/// The error when the application did not come up in time.
pub fn start_timeout_message() -> (r: String)
    ensures
        r@ == "Application failed to start within timeout"@,
{
    String::from_str("Application failed to start within timeout")
}

/// The application's executable: the first candidate location that exists,
/// else its bare name, to be found on the search path.
pub fn pick_app_path(candidates: &Vec<String>, exists: &Vec<bool>, windows: bool) -> (r: String)
    requires
        candidates@.len() == exists@.len(),
    ensures
        (exists|i: int| 0 <= i < exists@.len() && exists@[i]) ==> exists|i: int|
            0 <= i < exists@.len() && exists@[i] && r@ == candidates@[i]@ && forall|k: int|
                0 <= k < i ==> !exists@[k],
        !(exists|i: int| 0 <= i < exists@.len() && exists@[i]) ==> r@ == (if windows {
            "flowstt-app.exe"@
        } else {
            "flowstt-app"@
        }),
{
    let mut i: usize = 0;
    while i < candidates.len()
        invariant
            candidates@.len() == exists@.len(),
            0 <= i <= candidates@.len(),
            forall|k: int| 0 <= k < i ==> !exists@[k],
        decreases candidates@.len() - i,
    {
        if exists[i] {
            return candidates[i].clone();
        }
        i = i + 1;
    }
    if windows {
        String::from_str("flowstt-app.exe")
    } else {
        String::from_str("flowstt-app")
    }
}

/// What a ping's answer says: `Pong` is a live service; an error answer
/// fails with its message, any other with `Unexpected response`.
pub fn ping_answer(response: Response) -> (r: Result<bool, String>)
    ensures
        response is Pong ==> r == Ok::<bool, String>(true),
        response is Error ==> (r matches Err(m) && m@ == response->message@),
        !(response is Pong || response is Error) ==> (r matches Err(m) && m@
            == "Unexpected response"@),
{
    match response {
        Response::Pong => Ok(true),
        Response::Error { message } => Err(message),
        _ => Err(String::from_str("Unexpected response")),
    }
}

/// What the answer to a subscription says: `Subscribed` succeeds; an error
/// answer fails with its message, any other with `Failed to subscribe to
/// events`.
pub fn subscribe_answer(response: Response) -> (r: Result<(), String>)
    ensures
        response is Subscribed ==> r is Ok,
        response is Error ==> (r matches Err(m) && m@ == response->message@),
        !(response is Subscribed || response is Error) ==> (r matches Err(m) && m@
            == "Failed to subscribe to events"@),
{
    match response {
        Response::Subscribed => Ok(()),
        Response::Error { message } => Err(message),
        _ => Err(String::from_str("Failed to subscribe to events")),
    }
}

/// The outcome of a ping: a live service answers `pong`.
pub fn ping_outcome(answer: Result<bool, String>) -> (r: Result<(), CliError>)
    ensures
        match answer {
            Ok(true) => r is Ok,
            Ok(false) => r matches Err(e) && is_general_error(e, "Service not responding"@),
            Err(msg) => r matches Err(e) && is_general_error(e, msg@),
        },
{
    match answer {
        Ok(true) => Ok(()),
        Ok(false) => Err(CliError::general(String::from_str("Service not responding"))),
        Err(msg) => Err(CliError::general(msg)),
    }
}

} // verus!
