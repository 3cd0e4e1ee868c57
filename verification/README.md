# waterui_cli

The decision logic of the WaterUI command line tool (`water`), written in
Verus and proved against its contracts.

- `src/` — the verified library: project scaffolding and template rendering
  (`create`, `templates`, `paths`), backend version selection and Swift
  package rewriting (`backend`), Android toolchain discovery and package-name
  rules (`android`), device input commands and their failure classification
  (`device`, `devices`), screenshot diffing (`diff`), build and run planning
  (`run`, `commands`), toolchain reports (`toolchain`, `toolchain_error`),
  command-line argument types (`cli`), and the text functions they share
  (`text`).
- `tests/` — tests that run the compiled library.
- `app/` — the `water` executable: argument parsing, file system and process
  work, terminal output and JSON serialisation, around the library.
