# riff

The settings, pinning and page-chrome logic of the Riff music player, as a
Verus-verified library.

- `src/` is the verified library. Each module states its behaviour in
  `requires`/`ensures` over spec functions and views, and proves the laws that
  tie its operations together (for example that unpinning undoes pinning, that
  settings values survive being stored and read back, and that the segmented
  button's first segment toggles only in click mode).
- `tests/` runs the library on concrete values.
- `app/` is the GTK/GSettings code around the library: it reads and writes
  GSettings, turns the pinned-object map into JSON and back, and builds the
  widgets whose state the library decides.
