# unbroken_qa_capture

The core of a desktop QA capture tool — sessions, bug cards and their
captures, naming and export rules, ticket templates, AI prompts, hotkeys,
QA profiles and the Linear ticketing helpers — written in Verus with its
contracts proved.

- `src/` is the verified library. Calls into outside crates (chrono,
  urlencoding, base64, png, serde_json) and a few std functions sit behind
  small trusted wrappers whose contracts are stated in their doc comments.
  The replies of the Messages API and of Linear's GraphQL API, the
  credentials file and the `.session.json` bug records are read there too.
- `tests/` exercises the library from outside.
- `app/` is the Tauri application around it: commands, the tray, global
  hotkeys, SQLite storage, file watchers and HTTP clients.
