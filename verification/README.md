# flowstt

The verified core of FlowSTT, a local speech-to-text application: the
decisions and data structures of its audio engine, service, command-line
client and tray, written in Verus with their contracts proved.

## Layout

- `src/` — the library, verified by Verus.
  - `types`, `keymap`, `hotkey`, `service_hotkey`: key codes, hotkey
    combinations, the push-to-talk matcher and the platform key-code tables.
  - `processor`, `transcribe_mode`, `audio_stream`, `pw_devices`,
    `device_names`: speech detection state, the segment ring buffer and
    transcription queue, stream control, mixing and device naming.
  - `config`, `service_config`, `history`: stored settings (with the
    migration from the older format) and the transcription history.
  - `requests`, `service`: request checks and the service's answers.
  - `cli`, `test_mode`, `engine`, `tray`, `commands`, `log_archive`: the
    client's decisions and output, the test-run orchestration, engine
    helpers, the tray menu, the window commands' answers and the log
    archive.
  - `text`: character-sequence helpers (comparison, trimming, numbers).
- `tests/` — tests of the library, run with the real outside crates.
- `app/` — the program around the library: file and console I/O, serde
  copies of the library's types, and the floating-point signal features.
