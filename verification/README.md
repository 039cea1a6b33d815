# paper_reader

The core of a desktop paper reading assistant, verified with Verus: it
searches arXiv, imports PDFs from disk or from links, has them parsed by a
Python sidecar, runs reading agents (quick, careful and deep reads, and a
summary) against OpenAI-compatible model endpoints, and keeps a reading list.

## Layout

- `src/` — the verified library: the checks, the text and JSON the
  application builds and reads, the workflow and parse state machines, the
  recent and default flags of model configurations, and the plans the
  application acts on, each with its contract. `app/` reads and writes the
  rows and files they are about.
  - `text`, `json`, `error`: text helpers, a JSON model, application errors;
  - `library`, `profile`, `model_config`, `runs`, `paper`: request checks and
    the records of the reading list, the profile, model configurations, agent
    runs and papers;
  - `workflow`: the reading workflow of a paper as a state machine;
  - `agent_output`, `prompts`, `model_api`: agent prompts, model requests and
    replies, and the normalisation of agent output;
  - `arxiv`, `feed`, `feed_reader`: arXiv identifiers, search parameters,
    the XML reader and feed parsing;
  - `parsing`: the sidecar protocol and the parse retry policy;
  - `github`: image hosting in a GitHub repository;
  - `migrations`: the schema upgrades a database needs;
  - `paths`: file names and extensions of paths;
  - `timestamp`: seconds since the epoch as a UTC calendar time and its
    RFC 3339 text.
- `tests/` — tests of the library on concrete values.
- `app/` — the services around the library: SQLite, the system keyring, the
  sidecar process, HTTP, and the JSON wire formats.
