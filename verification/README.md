# everything_codex

A local runtime that hands tasks to the user's Codex CLI and streams its work
back to a host application over JSON-RPC on stdio.

- `src/` is the verified library: the Codex command line (`adapter`), the JSON
  model and the events Codex's JSONL output stands for (`json`, `events`), the
  task registry (`registry`), the request decisions of the service (`service`),
  and the per-task stream follower (`monitor`). Contracts and the laws that
  relate the operations are proved with Verus.
- `app/` is the runtime process: stdio transport, serde wire types, process
  spawning and filesystem probing, driving the library's decisions.
- `tests/` exercises the library on concrete inputs.
