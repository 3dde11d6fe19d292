# linkura

The verified core of the Linkura command-line client, written in Verus.

- `src/json.rs` — the JSON documents the game servers answer with, and member lookup.
- `src/api.rs` — what each game-API call returns, given the status and body of its response.
- `src/petal.rs` — the petal-exchange card filter and the report the default command prints.
- `src/config.rs` — command-line options, the configuration file's place and priority, start-up decisions, version updates.
- `src/login.rs` — the start-up login as a state machine.
- `src/archive.rs` — what to fetch about the latest trailer and archive.
- `src/text.rs` — decimal rendering, header text, paths.
- `src/laws.rs` — properties that relate several functions, proved.
- `app/` — the program around the library: argument parsing, HTTP, files, logging.

The HTTP client reads its server address and agent strings from the environment:
`LINKURA_API_BASE`, `LINKURA_UA_PREFIX`, `LINKURA_WEB_UA`, `LINKURA_APP_STORE_URL`.
