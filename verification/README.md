# wiiuse

A binding to the wiiuse Wii remote C library, with its logic verified by Verus.

- `src/` — the verified library: decoding of button codes (`buttons`) and
  event codes (`events`), the LED configuration (`leds`), the set of buttons
  kept in a remote's button word (`button_flags`), decimal rendering for the
  error messages (`decimal`), and the decisions around the C calls
  (`control`): argument conversion, reading the library's counts, slot
  lookup, the outcome of connecting all remotes, and the version text.
- `app/` — the handles that call the C library (`Wiiuse`, `Wiimote`,
  `WiiuseContext`) through `wiiuse-sys`, and the error types with `Display`.
- `tests/` — tests of the library on concrete values.
