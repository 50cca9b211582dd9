# brightvol

A Windows tray daemon that remaps the Volume Up / Volume Down keys to screen
brightness. This repository holds it as a verified library plus a thin
program around it.

- `src/` — the library, verified with Verus:
  - `brightness/calc.rs`: the stepping rule (`step_level`) and its laws;
  - `brightness/mod.rs`: reading/sending panel levels and the brightness step
    protocol (`BrightnessStep`);
  - `hook.rs`: the interception switch and what the keyboard hook does with
    each event;
  - `autostart.rs`: the run-on-login registry protocol (`SetAutostart`);
  - `config.rs`: settings, defaults, what a config file means, where it lives;
  - `tray.rs`: start-up sequence, tray menu, menu commands, tooltip;
  - `logging.rs`, `decimal.rs`: log lines and decimal rendering.
- `app/` — the Windows program: WMI, registry, keyboard hook, tray window and
  JSON (serde) I/O, driving the library's state machines.
- `tests/` — tests of the library.
