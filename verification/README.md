# parallel_invocation

Tools that provision an AWS Lambda function and its execution role, invoke it
several times at once (first without a concurrency limit, then with its
reserved concurrency set to one), and remove everything again. The AWS CLI
does the work; the library decides what to run, in which order, and what to
make of each answer.

## Layout

- `src/` — the verified library.
  - `text.rs`: white space, trimming, substring search, decimal numerals,
    UTF-8 decoding of command output.
  - `command.rs`: the AWS CLI command lines and how the CLI is launched.
  - `protocol.rs`: actions, outcomes and errors shared by the plans; `run`
    and `get_caller_arn`.
  - `clock.rs`: timestamps (chrono) and log lines.
  - `archive.rs`: the handler archive (zip).
  - `setup.rs`: `ensure_role`, `ensure_function` and the whole setup.
  - `teardown.rs`: `delete_function`, `delete_role` and the whole teardown.
  - `trial.rs`: the two-phase invocation trial.
  - `invocation.rs`: one batch of parallel invocations: payloads, response
    summaries (`summarize`), ordering and report.
- `app/` — the command-line program that carries out the plans' actions
  (processes, files, threads, clock, output).
- `tests/` — tests of the library on concrete values.

Each plan is a state machine: it hands the driver an action, the driver
reports the outcome, and the plan's `step` gives the next action or the
result. Each `step` is specified over the models of its state, the outcome
and the move: most by a spec function that gives the move exactly. The
function plan and the whole setup are specified by relations
(`function_moves`, `setup_moves`), because a handler source of more than
`ZIP64_BYTES_LIMIT` bytes fails while it is written into the archive, with
an I/O error that nothing states; on every other outcome the function plan
moves exactly as `function_step` says, and a source of at most
`ARCHIVE_LIMIT` (1 GiB) is always packed.

Two editions share the plans: the tool (tagged resources, timestamped logs)
and the tester (untagged resources, plain output lines).
