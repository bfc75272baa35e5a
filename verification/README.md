# voicetext

The core of the VoicetextAI desktop client, written in Verus: the rules
that decide what the application does are verified functions with
contracts. `app/` is a small program around them, not the whole desktop
client: it loads and saves the settings and auth stores, runs the token
refresh loop, talks to the backend socket, downloads models and does the
floating-point audio gain. The window, tray, audio capture and the loop
that drives a recording (`start_step`, `on_chunk`, `stop_step`) are not
part of it.

Layout of `src/`:

- `audio_chunk`, `capture`, `vad`, `vad_gate`: PCM framing, down-mixing,
  resampler blocks, voice activity detection and the once-per-capture
  silence timeout.
- `transcription`: the start and stop state machines of a recording and
  the bookkeeping of the audio sender (quality reports, error limits).
- `backend`, `deepgram`, `whisper_local`, `factory`: the providers —
  session URLs and tokens, handshake errors, batching of audio into
  messages, routing of results.
- `config`, `config_store`, `auth`, `updater`, `models`: settings and their
  files, the auth store and token refresh schedule, update progress, the
  model catalogue.
- `commands`, `events`, `tray`, `hotkey`, `auto_paste`, `demo`: what the
  windows, the tray and the global hotkey trigger.
- `text`, `errors`: string helpers with specifications, and error types.

Calls into other crates (`webrtc-vad`, `http`, `chrono`, `uuid`,
`global-hotkey`) and a few std calls sit behind small trusted wrappers.
Their contracts say what the crates' source shows, or name the result
where it is a function of the arguments but not short to state (the
WebRTC detector's verdict on a frame, a parsed URI's host, a parsed
date). Where the result depends on chance or the clock (a fresh UUID,
the current time), only what holds of every outcome is stated.
