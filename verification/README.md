# clawket

A command line for managing work with a coding agent: projects, plans, units,
cycles and tasks, kept by a daemon that the command talks to over a Unix socket.

`src/` is the library, verified with Verus. It decides everything that can be
decided without touching the outside: which request a command makes, how an
answer is shown, how a plan is exported, what the tools for language models
answer, how a task is taken apart, what the health report says. Each function
states in its contract what it returns, over the models in the same file.

| Modules | What they hold |
| --- | --- |
| `text`, `scan`, `query` | texts, their parts, and URL encoding |
| `json`, `json_text`, `output` | JSON values, and how they are printed |
| `command`, `request`, `task_request`, `dispatch`, `reply` | commands, the requests they make, and the answers |
| `client`, `error` | answers of the daemon, its event stream, exit codes |
| `decompose`, `accept`, `decompose_flow`, `tree`, `drift_warning` | work on tasks |
| `export`, `masking` | plans as Markdown, JSON and YAML, and what stays the same in them |
| `mcp`, `mcp_context` | the read-only tools for language models |
| `agent`, `paths`, `daemon`, `init`, `verify`, `migrate` | places, and the steps of longer commands |
| `config`, `codex`, `runtime`, `calendar` | the runtimes and their settings |
| `doctor`, `doctor_*` | the health report |

`app/` is ordinary Rust around the library: the command line, files, sockets,
processes, and floating-point numbers in printed shares.

`tests/` runs the library.

## The agent

The program is a plugin of a coding agent, whose name is part of several paths
and messages. Functions that need it take an `agent::Agent`, which `agent_of`
makes from the name of its variant in `runtime::RuntimeName`.
