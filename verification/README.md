# typepaste

Paste text anywhere by emitting it as keystrokes: into remote desktops,
VM consoles and applications that refuse a clipboard paste.

## Layout

- `src/` — the library, verified with Verus:
  - `config` — the configuration, its defaults, jitter validation and
    keyboard layout switching (which layout types a character, how many
    switch presses reach it);
  - `engine` — typing sessions: a request (paste, type, type into a window)
    becomes a sequence of actions, each decided from the result of the
    previous one; texts are cut to the length limit;
  - `platform` — the keystrokes that type a text (with layout switches),
    the per-keystroke delay with random jitter, and the per-platform
    decisions: macOS hotkey chords, AppleScript sources and the parsing of
    their output; Windows virtual-key events, window search and listing;
  - `hotkey` — parsing hotkey strings such as `Ctrl+Shift+V`;
  - `settings` — the settings form: text buffers, reading them back into
    the configuration, status messages, the delay preview;
  - `cli`, `tray`, `text`, `error` — command-line semantics, the tray icon
    bitmap, verified string helpers, error messages.
- `tests/` — tests of the library on concrete values.
- `app/` — the program around the library: command-line parsing (clap),
  the configuration file (serde, dirs), the operating system calls
  (CGEvent, AppleScript, SendInput, window enumeration), the tray icon and
  global hotkeys, and the settings window (eframe).
