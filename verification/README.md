# rust_flipit

A flip-clock screensaver for Windows. The library (`src/`) holds the parts
that decide and compute, each with a contract proved by Verus:

- `ini_file`, `ini_laws`, `assoc`: the INI settings store (sections and
  entries kept in `String` order), reading it from text and writing it back,
  with the laws that a read gives back the last write and that writing the
  text and reading it again gives back what the store holds.
- `settings`: the screensaver's settings, loaded from and saved to the store.
- `location`, `time_zones`, `clock`, `timezone_data`: cities, their time zones
  and the clock text shown for them; local times come from chrono.
- `colors`, `settings_dialog`, `screensaver`, `launch`: the colour box, what the
  settings dialog and the screensaver windows do on each event, and what the
  command line (`/c`, `/p`, `/s`) asks for.
- `text`, `number`: string and integer helpers (trimming, splitting,
  `String` order, `str::parse` and decimal output).

`app/` is the Windows program around it: window creation, GDI/GDI+ drawing,
message loops and the settings file on disk. `tests/` runs the library on
concrete values.
