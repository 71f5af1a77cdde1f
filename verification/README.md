# tars

A terminal assistant around a chat model: it sends a prompt, prints the
answer in the console, and answers the model's tool calls by running shell
commands in a persistent terminal session and writing files; and the
OpenAI-compatible chat completion data model it speaks. The request itself
carries no tool definitions: the registry adds none to it
(`ToolManager::register_all`).

The logic is a Verus library (`src/`), each function with a contract that
Verus proves:

- `models` — requests, messages, tools, tool choices, answers and streamed
  chunks, with the wire names of their enumerations.
- `chat` — how a conversation takes in streamed chunks or complete answers:
  content and tool-call arguments are reassembled and committed as messages.
- `tools` — the registry that routes the model's calls, the system,
  terminal and file tools' answers, and the paging of long output.
- `term` — the protocol spoken with the shell: cutting its output into
  lines, telling the echo from the output, finding the end of a command.
- `lines` — cutting a byte stream into lines whatever chunks it comes in.
- `provider`, `openai`, `llamacpp_server`, `llama_server` — HTTP clients'
  configuration, endpoints and headers, and reading server-sent events.
- `cli`, `args` — what the command line and the environment configure.
- `completion_ex` — a request together with its tools and context text,
  and the request the arguments ask for: the model a name or fuzzy
  pattern selects, the system messages, one user message holding the
  prompt segments concatenated.
- `tui` — terminal color and style escape sequences.
- `text` — exact string helpers (trimming, numbers, prefixes).

`app/` is the program around it: the pseudo-terminal, HTTP, files, the
console, the environment, and the JSON forms of the types.
