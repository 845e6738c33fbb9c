# flamingo_agent

A Windows service that, every few seconds, measures the UTC time and its own
resident memory, and starts a logger child with them as one argument, keeping
the child's log readable by administrators only.

The decisions live in `src/`, verified with Verus:

- `cli` parses the command line and builds the registered service's
  arguments; a law shows that the overrides it collects for `--install`,
  read back behind `--service`, give the registered service the same child
  path, data directory and overrides (and so, through `Path::join`, the same
  log paths).
- `config` holds the configuration and places the logs in the data directory.
- `launcher` is the child launcher as a state machine: reaping the previous
  child, the due check, protecting the log before every start, and the
  exponential backoff after failed starts, with laws over its steps.
- `metrics` renders the child's argument and the log line for a tick,
  including sizes in binary units. The size rendering is proved against an
  integer model of `bytes as f64` followed by `{:.1}` (rounding to 53
  significant bits, then to one decimal with ties to even); that the model
  agrees with real floating-point formatting is checked by the tests, not
  proved.
- `service` turns channel outcomes into commands and answers the service
  manager; `agent` counts failed collections and formats log lines.
- `error` is the error type and its messages.

`app/` performs the I/O: processes, files, ACLs, the Windows service manager,
logging, and the loop that feeds the launcher its events.
