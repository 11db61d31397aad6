//! Verified core of the FlowSTT speech-to-text application.

pub mod text;
pub mod types;
pub mod transcribe_mode;
pub mod hotkey;
pub mod keymap;
pub mod processor;
pub mod config;
pub mod service_config;
pub mod requests;
pub mod service;
pub mod cli;
pub mod test_mode;
pub mod audio_stream;
pub mod pw_devices;
pub mod history;
pub mod service_hotkey;
pub mod device_names;
pub mod engine;
pub mod log_archive;
pub mod tray;
pub mod commands;
