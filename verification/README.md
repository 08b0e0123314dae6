# sicth

A minimal inline TUI file navigator with fuzzy search and shell integration
(`cd` on exit through the `sc` shell function), whose logic is verified with Verus.

## Layout

- `src/` — the verified library.
  - `text.rs`: character-level string operations (trim, split, find, replace, numbers).
  - `settings.rs`: defaults, the `key = value` config file and the command line;
    `settings_laws.rs`: what holds for every command line and config file.
  - `model.rs`: directory entries, their stable sort and the listings.
  - `app.rs`: the navigator's state machine (keys, mouse, history, modes), with the
    work it asks of the driver as `Effect`s; `app_laws.rs`: what holds across steps.
  - `render.rs`: icons, labels, styles and the query bar; `terminal.rs`: popup height.
  - `open.rs`: how a file is opened, the editor, and the exit script for the shell.
  - `setup.rs`: the shell function and its marked block in rc files;
    the installer's question-and-answer steps; `setup_laws.rs`: installing twice
    equals installing once.
  - `quit.rs`: how the program ends for each command (exit code, exit script,
    opening a file first, staying open with `keep_open`).
  - `help.rs`: the `--help` and `--keybinds` texts.
- `app/` — the program: terminal, event loop, directory walking, fuzzy matching,
  launching editors, and the installer's prompts.
- `tests/` — tests of the library.
