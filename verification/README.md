# tuigreet (verified core)

The configuration, validation, theming and decision logic of tuigreet, a
console greeter for greetd, written in Verus with its behaviour stated in
`requires`/`ensures` contracts and proved.

Layout:

- `src/config.rs`, `src/error.rs`, `src/validation.rs`, `src/loader.rs`:
  the layered configuration (command line, environment, TOML files), its
  errors, the rules it must keep, and the order in which layers are merged.
- `src/schema.rs`, `src/parser.rs`: the file-based configuration, merging a
  user file over the system file, its rules, and error messages that point
  at the line and column of a TOML error.
- `src/theme.rs`: colour themes from the `[theme]` table or a
  `key=colour;...` string, with their fallbacks, and styles of UI elements.
- `src/power.rs`, `src/menu.rs`, `src/processing.rs`, `src/watcher.rs`,
  `src/masked.rs`: power commands, menus, box placement, hot-reload
  decisions and masked secrets.
- `src/text.rs`: string helpers with their specifications.
- `app/`: the program around the library (argument parsing, file and
  terminal I/O, running commands, watching files).
- `tests/`: tests on concrete values.
