# backend

The server side of a voice kiosk: a browser sends microphone audio over WebRTC,
the audio is transcribed with Whisper, and the transcript is handed to a Codex
CLI agent whose answers go back to the browser over a realtime WebSocket.

- `src/` is the verified library (Verus): the reading of the Codex CLI's JSON
  lines, the login and signaling messages, the per-event decisions of both
  WebSocket connections, the table of logged-in sessions, the decoder settings,
  and the transcript that becomes the agent's prompt. `src/json.rs` holds the
  only trusted items, the calls into serde_json.
- `app/` is the program around it: sockets, processes, WebRTC, Opus and
  Whisper, and the audio samples themselves (floating point).
- `tests/` exercises the library with the real serde_json.
