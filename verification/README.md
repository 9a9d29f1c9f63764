# scriptboard

A board of saved scripts: each has an interpreter, an argument line and a
need (or not) of administrator rights. The library decides which process
runs a script on Linux, macOS and Windows, splits its argument line as a
POSIX shell would, gathers its output line by line, records how it ended,
and keeps the store of settings and scripts in step with the board.

- `src/` is the verified library (Verus): `store` (settings and saved
  scripts), `scripts` (argument splitting, `commands` per platform,
  `execute` for the life of a run), `notifications`, `ui` (the board's
  actions), `file_storage` (the older list store), `utils` (paths, log
  lines, development runs).
- `app/` is the program around it: the store file and its lock, the
  log, starting processes and reading them.
- `tests/` runs the library on concrete values.
