# codespace

The execution plane of a workspace gateway: path policy, workspace and
environment registry, patch planning and the patch transaction, managed
process retention and output windows, file listings and windows, watch
events, the runner RPC's decisions, and the Linux sandbox helper protocol.

- `src/` is the library, verified with Verus. Each public function states
  its result in its contract; the laws that span several functions are
  public proof functions beside them.
- `tests/` runs the library on concrete values.
- `app/` is the host glue: configuration files, no-follow file I/O,
  process spawning, the sandbox and patch helper processes, the patch
  transaction loop, filesystem watching and the runner socket server. It
  performs what the library decides.
