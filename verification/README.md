# llmpulse-cli

`llmpulse` is a command-line client for the LLM Pulse API. This crate holds
its logic as a library verified with Verus, and the program around it.

- `src/` — the verified library:
  - `cli` — the commands and their arguments, as plain data;
  - `commands` — what each command asks of the API (method, path, query,
    body, how the answer is shown), deletion confirmation, fetching every
    page, the dashboards of `status`, `report` and `diff`, `login` and the
    `config` output;
  - `config` — configuration files and profiles, `config set/get/use`,
    resolution of flags, environment and files, API key masking, base URL
    checks;
  - `client` — credentials, request URLs, and how a response becomes data
    or an error;
  - `output` — rows, cells, CSV (spreadsheet-safe) and table output,
    pagination notes;
  - `json_io` — reading JSON text and bytes into the JSON model and writing
    it back, through `serde_json`;
  - `query`, `json`, `text`, `error` — query strings, the JSON model, text
    helpers and error reports;
  - `api_manifest` — the REST operations the commands cover.
- `app/` — the program: argument parsing with `clap`, HTTP with `reqwest`,
  files, terminals and prompts.
- `tests/` — tests of the library.

Laws of the library are public proof functions named `law_*`.
