# grok_agent

The session-level core of a coding agent, verified with Verus.

- `src/agent.rs`: the agent bound to a session; named-agent switches, the
  plan/ask read-only overlay and its restoration, and the laws that tie them.
- `src/config.rs`: agent definitions (permission mode, completion
  requirement, prompt settings, chat identity).
- `src/prompt.rs`: the prompt context a system prompt is rendered from.
- `src/compaction.rs`: compaction policy and the auto-compact trigger.
- `src/system_reminder.rs`: reminder policy, todo nudge and TodoGate defaults.
- `src/file_read_tracker.rs`: the files read in a session and the
  read-before-edit requirement. Each path is kept in the spelling first
  recorded, with a key built from its components; entries are sorted by key,
  which orders them as paths order by components. The entries live in a
  sorted `Vec` rather than a `BTreeSet`: vstd's `BTreeSet` specifications of
  `insert` and `contains` hold only for key types that vstd proves to obey
  its comparison laws (integers, tuples, `Option`, references), and byte
  strings and paths are not among them.
- `src/clock.rs`: the UTC timestamp, read through chrono, and the RFC 3339
  shape every reading has.
- `app/lib.rs`: asynchronous glue to the session's tool bridge and the
  serializable form of the file-read tracker.
