//! Configuration of the standalone service: transcription mode and a single
//! push-to-talk key.

use vstd::prelude::*;
use crate::types::{KeyCode, TranscriptionMode};

verus! {

/// Configuration of the standalone service: mode and a single key.
#[derive(Debug, Clone, Copy, PartialEq, Eq, Structural)]
pub struct Config {
    /// Current transcription mode (Automatic or PushToTalk)
    pub transcription_mode: TranscriptionMode,
    /// Configured push-to-talk hotkey
    pub ptt_key: KeyCode,
}

impl Default for Config {
    fn default() -> (r: Self)
        ensures
            r.transcription_mode == TranscriptionMode::PushToTalk,
            r.ptt_key == KeyCode::RightAlt,
    {
        Config {
            transcription_mode: TranscriptionMode::PushToTalk,
            ptt_key: KeyCode::RightAlt,
        }
    }
}

impl Config {
    /// The configuration in effect given what was read from disk: `None`
    /// when the file is missing, unreadable or unparsable.
    pub fn from_stored(stored: Option<Config>) -> (r: Self)
        ensures
            r == match stored {
                Some(c) => c,
                None => Config {
                    transcription_mode: TranscriptionMode::PushToTalk,
                    ptt_key: KeyCode::RightAlt,
                },
            },
    {
        match stored {
            Some(c) => c,
            None => Config::default(),
        }
    }
}

} // verus!
