# minecraft-launcher-launcher

A wrapper for the Minecraft launcher on Linux. It starts the launcher with
environment variables that help performance and stability, raises the
launcher's CPU and I/O priority, removes the launcher's Java check, and closes
every launcher process once the game has started (keeping the launcher's
settings file intact). With `--install` it puts itself in place of
`/usr/bin/minecraft-launcher`, moving the real launcher aside to
`/usr/bin/minecraft-launcher-real`.

## Layout

- `src/` is the library, verified with Verus. It decides everything the
  program does and computes every value it passes to the system:
  - `cli`: what to do with the command line;
  - `launch`, `install`, `profiles`: the runs, as state machines whose steps
    the caller performs;
  - `processes`, `watch`: recognising the launcher's and the game's
    processes, and reacting to process events;
  - `launcher_setup`: the launcher's environment and priority commands;
  - `pid_file`, `number`, `text`, `paths`, `compare`: process-id file,
    decimal numbers, text, paths and file comparison.
- `app/` is the program: command line, files, process table, signals,
  process events and privilege escalation.
- `tests/` runs the library on concrete values.
