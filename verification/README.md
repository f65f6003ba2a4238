# dispatcher_store

The session store of a desktop coding-agent dispatcher: chat and project
sessions, their messages and tool runs, model settings, token usage,
keywords, categories and projects, kept in SQLite.

- `src/` is the verified library (Verus). Every rule the store applies lives
  here with its contract: rendering messages for display and for the model,
  normalising and reading back settings, the one-way tool-run lifecycle and
  the once-only reply and delivery of tool completions, truncation for
  regeneration, keyword changes and search patterns, the project list, the
  DWG viewer session registry, and more. Laws that span several operations
  are public proof functions named `law_*`.
- `app/` is the plain Rust around it: the SQLite connection pool and SQL,
  JSON encodings of stored documents, the viewer bridge's channels and the
  debug log writer thread. It reads rows, hands them to the library, and
  writes back what the library decided.
- `tests/` exercises the library from outside.
