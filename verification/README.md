# lum

The verified core of Lum, a Windows tray app that fades screen warmth and
brightness with the sun.

- `src/` is the library, checked by Verus: shortcut parsing and validation and
  the hotkey listener's bookkeeping (`hotkeys`), the settings types that hold no
  floats, their defaults and the representative-city table (`config`), gamma ramps
  (`gamma`), the fade schedule and the tick loop's decisions (`engine`), tray
  click timing (`tray`), the pause list (`appdetect`), registry encodings
  (`theme`, `autostart`, `switch`), monitor records (`ddcci`) and text helpers (`text`).
- `app/` holds the desktop side: Windows API calls, `Settings` and its file, the
  floating-point colour and sun computations, the threads, and the Tauri shell.
- `tests/` exercises the library.
