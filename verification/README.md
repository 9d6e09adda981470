# hearye

The verified core of HearYe, a macOS dictation app: press a hotkey, talk,
and the transcript is pasted where you were typing.

- `src/` is the library, checked by Verus: audio shaping (down-mix,
  resampling to 16 kHz, WAV framing through `hound`), the cleaning of
  Whisper's output, the settings and the key-store cache (through
  `keyring`), the requests to the remote engines and how their answers are
  read, the recording session and the finish pipeline as state machines,
  and the interface decisions (overlay geometry, tray menu, hotkeys, the
  Escape key tap).
- `app/` is the tauri application around it: windows, tray, hotkeys, audio
  capture with cpal, whisper.cpp through whisper-rs, HTTP through reqwest
  and the macOS glue. It performs the work that the library's decisions ask
  for.
- `tests/` runs the library on concrete values.

The library names no default model for the optional AI clean-up: set one
in the settings (`haiku_model`). Without one, `cleanup_request` refuses
with "Anthropic model not set", no clean-up request is sent, and the raw
transcript is pasted.
