# CrabOnTree

A Git GUI whose application core is verified with Verus.

- `src/` is the library `crabontree`: the application state and the reducer that
  updates it (`reducer`), the effects and background jobs it asks for (`effect`, `job`),
  the repository data model and the rules that turn raw git data into it (`git`,
  `outcomes`), the configuration and commit drafts (`config`), the order of branch
  names (`order`), and the decisions of the user interface (`ui`: keyboard, panes,
  panels, widgets, colour codes, themes). Every function there carries a contract that
  Verus proves; the laws the library keeps over several calls are public proof
  functions (for instance `reducer::laws`, `reducer::determinism`, `job::lemma_ids_never_repeat`,
  `ui::keyboard::lemma_pane_cycle`,
  `ui::color::lemma_hex_color_roundtrip`, `config::lemma_store_then_find`).
- `app/` is the program: the egui window and dock, the worker thread that runs jobs
  against the repository with git2, and the configuration file. It reads input, calls
  the library, and carries out what the library returns; the few decisions it makes
  itself rest on the file system or on git2, such as telling a path that does not exist
  from one that holds no repository when a repository cannot be opened.
- `tests/` runs the library on concrete values.

Themes are read at run time from a `themes` folder (in the configuration directory or
beside the program), one `<id>.toml` file per built-in theme identifier.
