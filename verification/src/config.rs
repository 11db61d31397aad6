//! Persisted configuration: its defaults, and the migration of stored files
//! written in the older single-key format.
//!
//! Reading and writing the file happens at the edge of the program; this
//! module decides what a stored value (or its absence) means.

use vstd::prelude::*;
use crate::types::{
    HotkeyCombination, KeyCode, TranscriptionMode, combination_keys, copy_combinations,
};

verus! {

/// Theme mode for the application UI.
#[derive(Debug, Clone, Copy, PartialEq, Eq, Structural)]
pub enum ThemeMode {
    Auto,
    Light,
    Dark,
}

impl Default for ThemeMode {
    fn default() -> (r: Self)
        ensures
            r == ThemeMode::Auto,
    {
        ThemeMode::Auto
    }
}

/// Configuration that persists across restarts.
pub struct Config {
    /// Current transcription mode (Automatic or PushToTalk)
    pub transcription_mode: TranscriptionMode,
    /// Configured push-to-talk hotkey combinations
    pub ptt_hotkeys: Vec<HotkeyCombination>,
    /// Configured auto-mode toggle hotkeys
    pub auto_toggle_hotkeys: Vec<HotkeyCombination>,
    /// Whether auto-paste into the foreground application is enabled
    pub auto_paste_enabled: bool,
    /// Delay in milliseconds between clipboard write and paste simulation
    pub auto_paste_delay_ms: u32,
    /// UI theme mode: auto (follow OS), light, or dark
    pub theme_mode: ThemeMode,
}

impl Default for Config {
    /// Every field at its type's default (an empty hotkey list, auto-paste off).
    fn default() -> (r: Self)
        ensures
            r.transcription_mode == TranscriptionMode::PushToTalk,
            r.ptt_hotkeys@.len() == 0,
            r.auto_toggle_hotkeys@.len() == 0,
            !r.auto_paste_enabled,
            r.auto_paste_delay_ms == 0,
            r.theme_mode == ThemeMode::Auto,
    {
        Config {
            transcription_mode: TranscriptionMode::PushToTalk,
            ptt_hotkeys: Vec::new(),
            auto_toggle_hotkeys: Vec::new(),
            auto_paste_enabled: false,
            auto_paste_delay_ms: 0,
            theme_mode: ThemeMode::Auto,
        }
    }
}

/// A stored configuration as read, in the old format (single `ptt_key`) or
/// the new one (`ptt_hotkeys`); absent fields are `None`.
pub struct LegacyConfig {
    pub transcription_mode: TranscriptionMode,
    /// Old single-key field
    pub ptt_key: Option<KeyCode>,
    /// New multi-hotkey field (present if already migrated)
    pub ptt_hotkeys: Option<Vec<HotkeyCombination>>,
    /// Auto-mode toggle hotkeys (absent in old files)
    pub auto_toggle_hotkeys: Option<Vec<HotkeyCombination>>,
    /// Whether auto-paste is enabled (absent in old files)
    pub auto_paste_enabled: Option<bool>,
    /// Auto-paste delay in ms (absent in old files)
    pub auto_paste_delay_ms: Option<u32>,
    /// UI theme mode (absent in old files)
    pub theme_mode: Option<ThemeMode>,
}

/// The single default push-to-talk binding.
pub open spec fn default_hotkey_keys() -> Seq<Seq<KeyCode>> {
    seq![seq![KeyCode::RightAlt]]
}

/// The push-to-talk bindings a stored configuration migrates to: its hotkey
/// list when non-empty, else its single key, else the default binding.
pub open spec fn migrated_hotkeys(legacy: LegacyConfig) -> Seq<Seq<KeyCode>> {
    match legacy.ptt_hotkeys {
        Some(h) => if h@.len() > 0 {
            combination_keys(h@)
        } else {
            default_hotkey_keys()
        },
        None => match legacy.ptt_key {
            Some(k) => seq![seq![k]],
            None => default_hotkey_keys(),
        },
    }
}

/// `c` is what `legacy` migrates to, field by field.
pub open spec fn is_migration_of(legacy: LegacyConfig, c: Config) -> bool {
    &&& c.transcription_mode == legacy.transcription_mode
    &&& combination_keys(c.ptt_hotkeys@) == migrated_hotkeys(legacy)
    &&& combination_keys(c.auto_toggle_hotkeys@) == match legacy.auto_toggle_hotkeys {
        Some(h) => combination_keys(h@),
        None => Seq::<Seq<KeyCode>>::empty(),
    }
    &&& c.auto_paste_enabled == match legacy.auto_paste_enabled {
        Some(b) => b,
        None => true,
    }
    &&& c.auto_paste_delay_ms == match legacy.auto_paste_delay_ms {
        Some(d) => d,
        None => 50u32,
    }
    &&& c.theme_mode == match legacy.theme_mode {
        Some(t) => t,
        None => ThemeMode::Auto,
    }
}

/// The stored form of a configuration: every field present, no `ptt_key`.
pub open spec fn stored_form(c: Config) -> LegacyConfig {
    LegacyConfig {
        transcription_mode: c.transcription_mode,
        ptt_key: None,
        ptt_hotkeys: Some(c.ptt_hotkeys),
        auto_toggle_hotkeys: Some(c.auto_toggle_hotkeys),
        auto_paste_enabled: Some(c.auto_paste_enabled),
        auto_paste_delay_ms: Some(c.auto_paste_delay_ms),
        theme_mode: Some(c.theme_mode),
    }
}

/// The same settings: equal fields, hotkeys compared key by key.
pub open spec fn same_settings(a: Config, b: Config) -> bool {
    &&& a.transcription_mode == b.transcription_mode
    &&& combination_keys(a.ptt_hotkeys@) == combination_keys(b.ptt_hotkeys@)
    &&& combination_keys(a.auto_toggle_hotkeys@) == combination_keys(b.auto_toggle_hotkeys@)
    &&& a.auto_paste_enabled == b.auto_paste_enabled
    &&& a.auto_paste_delay_ms == b.auto_paste_delay_ms
    &&& a.theme_mode == b.theme_mode
}

impl Config {
    /// A default configuration with the default hotkey binding.
    pub fn default_with_hotkeys() -> (r: Self)
        ensures
            r.transcription_mode == TranscriptionMode::PushToTalk,
            combination_keys(r.ptt_hotkeys@) == default_hotkey_keys(),
            r.auto_toggle_hotkeys@.len() == 0,
            r.auto_paste_enabled,
            r.auto_paste_delay_ms == 50,
            r.theme_mode == ThemeMode::Auto,
    {
        let mut ptt_hotkeys: Vec<HotkeyCombination> = Vec::new();
        ptt_hotkeys.push(HotkeyCombination::single(KeyCode::RightAlt));
        assert(combination_keys(ptt_hotkeys@) =~= default_hotkey_keys());
        Config {
            transcription_mode: TranscriptionMode::PushToTalk,
            ptt_hotkeys,
            auto_toggle_hotkeys: Vec::new(),
            auto_paste_enabled: true,
            auto_paste_delay_ms: 50,
            theme_mode: ThemeMode::Auto,
        }
    }

    /// Convert a stored configuration (with `ptt_key` or `ptt_hotkeys`) to
    /// the current format.
    pub fn from_legacy(legacy: LegacyConfig) -> (r: Self)
        ensures
            is_migration_of(legacy, r),
    {
        let ghost l = legacy;
        let ptt_hotkeys = match legacy.ptt_hotkeys {
            Some(hotkeys) => {
                if hotkeys.len() == 0 {
                    let mut v: Vec<HotkeyCombination> = Vec::new();
                    v.push(HotkeyCombination::single(KeyCode::RightAlt));
                    assert(combination_keys(v@) =~= default_hotkey_keys());
                    v
                } else {
                    hotkeys
                }
            },
            None => match legacy.ptt_key {
                Some(key) => {
                    let mut v: Vec<HotkeyCombination> = Vec::new();
                    v.push(HotkeyCombination::single(key));
                    assert(combination_keys(v@) =~= seq![seq![key]]);
                    v
                },
                None => {
                    let mut v: Vec<HotkeyCombination> = Vec::new();
                    v.push(HotkeyCombination::single(KeyCode::RightAlt));
                    assert(combination_keys(v@) =~= default_hotkey_keys());
                    v
                },
            },
        };
        let auto_toggle_hotkeys = match legacy.auto_toggle_hotkeys {
            Some(h) => h,
            None => {
                let v: Vec<HotkeyCombination> = Vec::new();
                assert(combination_keys(v@) =~= Seq::<Seq<KeyCode>>::empty());
                v
            },
        };
        Config {
            transcription_mode: legacy.transcription_mode,
            ptt_hotkeys,
            auto_toggle_hotkeys,
            auto_paste_enabled: match legacy.auto_paste_enabled {
                Some(b) => b,
                None => true,
            },
            auto_paste_delay_ms: match legacy.auto_paste_delay_ms {
                Some(d) => d,
                None => 50,
            },
            theme_mode: match legacy.theme_mode {
                Some(t) => t,
                None => ThemeMode::Auto,
            },
        }
    }

    /// The configuration in effect given what was read from disk: `None`
    /// when the file is missing, unreadable or unparsable.
    pub fn from_stored(stored: Option<LegacyConfig>) -> (r: Self)
        ensures
            match stored {
                Some(l) => is_migration_of(l, r),
                None => {
                    &&& r.transcription_mode == TranscriptionMode::PushToTalk
                    &&& combination_keys(r.ptt_hotkeys@) == default_hotkey_keys()
                    &&& r.auto_toggle_hotkeys@.len() == 0
                    &&& r.auto_paste_enabled
                    &&& r.auto_paste_delay_ms == 50
                    &&& r.theme_mode == ThemeMode::Auto
                },
            },
    {
        match stored {
            Some(legacy) => Self::from_legacy(legacy),
            None => Self::default_with_hotkeys(),
        }
    }

    /// The stored form of this configuration, as it is written to disk.
    pub fn to_stored(&self) -> (r: LegacyConfig)
        ensures
            r.transcription_mode == self.transcription_mode,
            r.ptt_key is None,
            r.ptt_hotkeys matches Some(h) && combination_keys(h@) == combination_keys(
                self.ptt_hotkeys@,
            ),
            r.auto_toggle_hotkeys matches Some(h) && combination_keys(h@) == combination_keys(
                self.auto_toggle_hotkeys@,
            ),
            r.auto_paste_enabled == Some(self.auto_paste_enabled),
            r.auto_paste_delay_ms == Some(self.auto_paste_delay_ms),
            r.theme_mode == Some(self.theme_mode),
    {
        LegacyConfig {
            transcription_mode: self.transcription_mode,
            ptt_key: None,
            ptt_hotkeys: Some(copy_combinations(&self.ptt_hotkeys)),
            auto_toggle_hotkeys: Some(copy_combinations(&self.auto_toggle_hotkeys)),
            auto_paste_enabled: Some(self.auto_paste_enabled),
            auto_paste_delay_ms: Some(self.auto_paste_delay_ms),
            theme_mode: Some(self.theme_mode),
        }
    }
}

/// Migration never leaves push-to-talk without a binding.
pub proof fn lemma_migration_keeps_a_binding(legacy: LegacyConfig, c: Config)
    requires
        is_migration_of(legacy, c),
    ensures
        c.ptt_hotkeys@.len() >= 1,
{
    assert(combination_keys(c.ptt_hotkeys@).len() == c.ptt_hotkeys@.len());
}

/// A configuration with at least one push-to-talk binding reads back
/// unchanged from its stored form.
pub proof fn lemma_stored_config_reads_back(c: Config, r: Config)
    requires
        c.ptt_hotkeys@.len() > 0,
        is_migration_of(stored_form(c), r),
    ensures
        same_settings(r, c),
{
}

/// A stored file in the old format keeps its key as the only binding.
pub proof fn lemma_single_key_migrates_to_one_binding(
    mode: TranscriptionMode,
    key: KeyCode,
    c: Config,
)
    requires
        is_migration_of(
            LegacyConfig {
                transcription_mode: mode,
                ptt_key: Some(key),
                ptt_hotkeys: None,
                auto_toggle_hotkeys: None,
                auto_paste_enabled: None,
                auto_paste_delay_ms: None,
                theme_mode: None,
            },
            c,
        ),
    ensures
        c.transcription_mode == mode,
        c.ptt_hotkeys@.len() == 1,
        c.ptt_hotkeys@[0].keys@ == seq![key],
        c.auto_paste_enabled,
        c.auto_paste_delay_ms == 50,
        c.theme_mode == ThemeMode::Auto,
{
    assert(combination_keys(c.ptt_hotkeys@).len() == c.ptt_hotkeys@.len());
    assert(combination_keys(c.ptt_hotkeys@)[0] == c.ptt_hotkeys@[0].keys@);
}

} // verus!
