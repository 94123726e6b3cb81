# mouthwrite-linux

A push-to-talk voice input daemon for Linux: hold a hotkey and speak, release
it, and the speech is transcribed, polished or translated, put on the
clipboard, and pasted at the next mouse click.

`src/` is the verified core, checked with Verus:

- `input/evdev_hook.rs` — which keys are held and when a configured hotkey
  combination starts or stops being held (translate takes precedence over
  direct; both Ctrl keys count as one).
- `input/uinput_sim.rs` — parsing the paste shortcut and the key actions that
  type it.
- `audio/recorder.rs` — the bounded pre-roll buffer and the per-session
  recording buffer of the always-running microphone stream.
- `network/` — WAV framing of recorded PCM, request bodies for the speech
  recognition and text processing services, reading transcripts and streamed
  text increments out of their answers.
- `app_core.rs` — the session state machine that ties the parts together.
- `config.rs`, `logging.rs`, `error.rs`, `json.rs`, `text.rs` — configuration
  types and file locations, errors, the JSON document type and character-level
  helpers.

`app/` is the program around it: device access, audio I/O, HTTP, the clipboard,
configuration file reading and the event loop that performs the state
machine's actions.
