# hydra_nexus

A launcher and dashboard for local development stacks ("ecosystems"): each
ecosystem has a directory, Docker Compose files, environments and services.
The library holds the logic, proved with Verus; the program in `app/` is the
terminal front end that reads files, runs processes and draws the screen.

Library modules (`src/`):

- `text`: character-level string operations and their specifications
  (substring search, prefixes, lexicographic order, ASCII case folding,
  decimal notation, padding, joining).
- `config`: the ecosystems configuration and its lookups (ecosystem by name,
  environment by name, compose file selection, service working directories).
- `clock`: the local wall clock as text.
- `logger`: coloured log entries.
- `scanner`: which directory entries are projects, their kinds and icons,
  sorting by name, and marking the configured ones.
- `services`: the stack's services, health probes and answers, compose files
  for bringing the stack up and down, status lines.
- `monitor`: the dashboard state: the bounded log stream, error grouping,
  counters, traffic history and keyboard/mouse navigation.
- `launch`: service command lines, browser arguments, the readiness wait and
  code statistics summaries.
- `metrics`: the text fields the system load is read from.

`app/main.rs` commands: `dev` (dashboard), `stop`, `status`, `config`,
`launch <ecosystem> [env]`, `stats <path>`.
