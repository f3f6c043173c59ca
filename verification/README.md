# viral_cursor

The verified core of ViralCursor, a desktop effect that replaces the Windows
cursor with an animated poking hand, turns Ctrl into a machine gun and shakes
the desktop through the full-screen magnification transform.

`src/` is a Verus library holding every decision the program makes:

- `hook`: turning low-level mouse, keyboard and hot-key messages into events,
  and handing them to the consumer's channel (with a record of what was sent).
- `pump`: the consumer: Ctrl auto-repeat removed, pointer moves coalesced and
  spaced by the move interval, nothing forwarded while the effect is off.
- `cursor`: when the system cursors must be replaced and when they must be
  reloaded.
- `fullscreen`: whether the foreground window is a topmost full-screen window
  the overlay cannot draw over.
- `shake`: the shake worker's state machine and jitter generator.
- `lib.rs`: starting and shutting down the effect and the full-screen guard.

`app/` is the Windows program around it: Tauri windows and commands, Win32
hooks and cursor calls, the magnification calls, the worker threads, and the
floating-point geometry. It builds only for Windows.

`tests/` runs the library on concrete inputs.
