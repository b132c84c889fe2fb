# AgentFlow

AgentFlow is a small local loop runner for `omp` sessions. It reads one `.agentflow.yml`, renders the
prompt templates in it for each value of a counter, sends the prompts to `omp --mode rpc` in order,
and lets the agent pause or halt the run from inside its turn.

The crate has two parts.

- `src/` is the logic, verified with Verus: checking configurations (`config`), expanding loops
  (`loop_spec`), rendering templates (`template`, `partials`), the protocol of the agent (`rpc`,
  `exchange`, `session`), the course of a run (`flow`, `runner`), control events (`control`),
  notifications (`notify`), files and records (`files`, `records`, `state`, `clock`), the command
  line (`cli`) and the smoke test (`smoke`). What the modules promise together is stated and proved
  in `laws`, `flow_laws` and `exchange_laws`.
- `app/` is the program around it: arguments, files, sockets, the agent's process and the terminal.

The machines in `exchange`, `session`, `flow` and `smoke` decide and do not act: the program performs
each action that they name and hands back what came of it.

Paths are text, and follow the rules of Unix. Durations are whole seconds, and instants are
nanoseconds since the agent's process was started. JSON is handled by `serde_json` and templates by
`handlebars`; what is taken on trust of them stands in the doc comments of the functions in `json` and
`template` that make the calls.
