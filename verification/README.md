# agent_loop

The decision core of a chat agent, written and verified in Verus.

A chat agent takes messages from channels, asks a language model, runs the tools that the
model asks for, and answers. What it does in between is a matter of rules: who may approve
a tool, which thread a message belongs to, when a turn is closed, what is stored, what is
never lost. These rules are the library. Each public function states what it decides, and
the properties that span several functions stand beside them as public proof functions.

- `src/` is the verified library. Work that waits for the outside (the model, a tool, a hook,
  the store) is left to the caller: a machine such as `agentic::AgenticLoop`,
  `intake::Intake`, `user_turn::UserTurn`, `approval_run::ApprovalRun` or `flush::Flush` names
  the work to do next and takes its outcome as the next event.
- `tests/` runs the library on concrete values.
- `app/` is the agent around the library: traits for the services that it needs, and the
  asynchronous code that drives the machines.

Values that come from JSON stay `serde_json::Value`; contracts speak of the tree that a value
holds. Identifiers are UUIDs, held as 128-bit numbers. Moments are seconds since the Unix
epoch, in UTC.
