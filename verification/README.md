# Anima Flow

An autonomous secretary agent that runs an observe → internalize → intervene
loop: connectors observe outside services, the Cortex (a node and edge graph in
Postgres) stores what was observed, the context engine recalls what matters,
and skills act through a gateway.

## Layout

- `src/` — the verified library (Verus). Everything that decides or computes
  lives here with its contract:
  - `config`, `error`, `id`, `types`, `time`, `json`, `text` — configuration
    from the environment, errors, node types, times, JSON values and the text
    operations the rest is specified with;
  - `connectors/` — what each connector asks of its service (requests), how
    replies become inbox items, and what each mutation does; `registry` decides
    which connectors are enabled from the credentials;
  - `context` — merging retrieved candidates, activation seeds, the integer
    parts of scoring and the token estimate;
  - `brain/` — the completions sent to the model and how replies are read;
  - `skills/` — the briefing, inbox, breakdown and review workflows as step
    functions from an event to the next action;
  - `session` — the command-line gateway and what a typed line asks for.
- `app/` — the program around it: the command line, Postgres, HTTP, the model
  API, floating-point scoring, and the loops that carry out the actions the
  skills decide.
- `tests/` — tests of the library on concrete values.
