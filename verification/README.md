# mac-k3d

A command-line tool that prepares, starts, configures, tears down and cleans a
local Docker Desktop + k3d (+ optional in-cluster Jenkins) environment on macOS.

## Layout

- `src/` — the library, verified with Verus: configuration model and defaults,
  validation, tool discovery and installation plans, the prepare wizard's
  decisions, the LaunchAgent plist and `launchctl` sequence, command arguments
  for docker/k3d/kubectl/helm, output parsing, and the per-command plans.
  Functions take what they need to know of the machine (which paths exist, what
  a command printed) as plain values, so every decision is proved.
- `app/` — the `mac-k3d` binary: argument parsing, YAML load/save, prompts,
  running commands and probing the file system, feeding the library and acting
  on its answers.
- `tests/` — tests of the library on concrete values.
