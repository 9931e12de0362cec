# kenseader

A terminal RSS reader's core: feed fetching decisions, feed and OPML
reading, AI prompts and answer parsing, batching, scheduling, the daemon's
JSON-RPC protocol and the reader's configuration, written in Verus with
their behaviour stated in `requires`/`ensures` contracts and proved.

Layout:

- `src/` — the verified library. Calls into outside crates (`feed-rs`,
  `quick-xml`, `html2text`, `url`, `uuid`, `dirs`, `serde_json`, `sqlx`)
  stand behind small trusted wrappers whose contracts name what the call
  returns.
- `tests/` — tests of the library on concrete values.
- `app/` — the `kenseader` program: command line, configuration file,
  SQLite storage, HTTP and AI clients, the background scheduler and the
  daemon's socket, all driven by the library's decisions.
