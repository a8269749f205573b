# zach-agent

An agent runtime for language models: a conversation's data model, the
mapping from model stream parts to runtime events, the scheduling of the
agent loop, tool-batch planning, the per-agent session state and the tool
registry. The library under `src/` is verified with Verus; `app/` holds the
asynchronous runtime around it (the model stream, tokio tasks, hooks, tools,
loading and executing registered tools, and the agent handle).

Layout of `src/`:

- `message.rs`, `stream.rs`: messages, model responses, stream parts, model errors.
- `event.rs`: runtime events and how stream parts and tool results map to them.
- `agent_loop/machine.rs`: the run as a state machine from input to next action.
- `agent_loop/step.rs`, `agent_loop/batch.rs`: one model request; one tool batch.
- `agent/state.rs`: message queues, transcript, run state, pending approvals.
- `tool/`: declarations, outcomes, errors, executors and the registry.
- `context.rs`, `usage.rs`, `keyed.rs`, `json.rs`: prompts and input checks,
  usage sums, a table with distinct keys, and the JSON calls.
