# pico4u

Verified core of a companion application for Pico VR headsets: it keeps the
headset awake over ADB and connects to it wirelessly; for the headset's virtual
microphone on the PC it recognises the device by name and measures sample levels.

- `src/` (Verus): the ADB server's wire format (`protocol`), the exchanges
  with the server as state machines (`session`), the decisions behind the
  application's commands (`commands`), the shared flags (`state`), device-name
  matching and sample levels (`mic_drainer`), text utilities (`text`) and the
  properties that span several functions (`laws`).
- `app/`: the Tauri commands, the TCP socket, the background tasks and the
  settings file, driving the library.
- `tests/`: scenarios on concrete values.
