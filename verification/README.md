# serial_mcp_server

A shared serial-port service for MCP clients, a command line and a desktop
console. One broker process owns the physical ports; every client reaches it
over a local TCP protocol, and opening a port that is already open with the
same settings hands back the same connection id.

The library under `src/` holds the decisions, each with a contract checked by
Verus:

- `broker` — the broker's connection table (reuse, conflicts, the close
  gate), the shared receive buffer, request limits and error codes.
- `serial` — serial settings, capture windows as a step-by-step state
  machine, and serial errors.
- `automation` — the JSON macro-pack language, its validation, and the
  simulated transport.
- `tools` — MCP tool requests and replies: payload encodings, read plans,
  reply texts.
- `cli`, `config`, `events`, `console` — command-line settings, data
  formats and the checks a write or read passes before a port is opened,
  configuration defaults and rules, event records, and the desktop console's
  checks.
- `encoding`, `text` — hex, base64, UTF-8 and the string helpers the rest
  builds on.

`app/` is the program around it: argument parsing, the TCP broker and its
ports, the MCP server, the event journal, and printing.
