# pausa

The logic of Pausa, a focus timer with work cycles, breaks and a strict
mode, as a library verified with Verus, and the desktop application around
it.

- `src/` — the verified library: the cycle orchestrator and the focus/break
  state machine with their timers, strict mode and the emergency hotkey, the
  onboarding flow and its validation, settings conversions, backups,
  migrations, sign-in with PKCE, analytics events, windows, tray and hotkey
  decisions.  Calls into outside crates (chrono, uuid, rand, sha2, base64,
  url, iana-time-zone) sit behind small trusted wrappers whose contracts say
  what the crates document.
- `tests/` — tests of the library on concrete values.
- `app/` — the Tauri application: commands, the SQLite store, files, the
  network and the windowing calls, each handing plain values to the library
  and acting on what it decides.
