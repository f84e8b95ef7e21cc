# corsair_headset

Verified protocol codecs and host-side logic for Corsair wireless headsets,
written in Verus.

- `src/` — the library, every function with a contract proved by Verus:
  - `report`: HID reports (ID plus a payload of at most 64 bytes), parsing of
    input bytes and the wire format, with read-back laws.
  - `legacy/`: the Legacy headset protocol (VOID, HS60, HS70): report IDs and
    enums, state / mode / firmware decoders, SetValue, power, pairing,
    sidetone (the decibel conversion computed exactly in integers) and LED
    control.
  - `bragi/`: Bragi value scales and enums.
  - `cxaudio/`: the CAPE command format of the Conexant chip.
  - `devices`, `types`, `error`, `text`: the device catalog, USB identifiers,
    decoder errors and number-to-text rendering.
  - `transport/`: interface selection and report pacing.
  - `tray/`: what the menu bar application decides (status texts, settings,
    battery alerts, menu choices, sleep timer, poll handling, icon bitmap).
- `tests/` — unit tests of the library.
- `app/` — the menu bar application, the command-line tool (run when the
  binary is given `on`, `off`, `level` or `help`) and the async
  hidapi transport: HID and file I/O, UI and event loop around the library.
