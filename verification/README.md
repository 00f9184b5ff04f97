# palladium

A Discord desktop client built on Tauri, with its logic as a Verus-verified
library.

- `src/` is the library: the arRPC wire format and session state machine,
  activity translation, the bridge's state, configuration and its patches,
  importing settings from other clients, themes and the injected page
  script, client-mod asset decisions, the local proxy's routing and header
  policy, and the window and WebKit policies. Every function carries a
  contract, and the laws that tie functions together are proof functions.
- `tests/` runs the library on concrete values.
- `app/` is the shell around it: Tauri windows and tray, file and network
  I/O, the WebSocket bridge and the IPC server, all calling the library for
  their decisions.
