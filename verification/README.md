# henry_whisper

The decision logic of a tray dictation app (record from anywhere, transcribe
with an OpenAI-compatible endpoint, copy the transcript to the clipboard),
written in Verus and proved against its contracts.

- `src/` — the verified library:
  - `shared`, `settings`, `app::settings`: the settings records, their
    defaults (record / transcribe `Ctrl+1`, cancel `Ctrl+2`) and what
    start-up does with a stored file.
  - `app::recording`, `recording`: the start, stop-and-transcribe and cancel
    commands as step functions (stage + reported event → next stage,
    actions, result), with the capture callback's rule.
  - `app::laws`, `laws`, `ui::laws`: properties proved of every run.
  - `ai`: the chat-completion request with audio input that transcribes,
    and transcript clean-up.
  - `ui`: the settings window's shortcut recorder and save bookkeeping.
  - `app::shortcuts`, `shortcuts`, `app::tray`: shortcut and menu dispatch.
  - `ipc_gen`: what the IPC code generator emits for a command signature.
  - `audio`: cue sounds, the player handle, sizes of resampled audio.
- `app/` — the Tauri process around the library: devices, network, files,
  clipboard, keyboard, the tray, and the runners that perform the actions the
  step functions ask for.
- `tests/` — tests of the library on concrete values.
