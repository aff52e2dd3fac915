# kiro-rs administration

The rules by which a Kiro gateway imports credentials from the official Kiro CLI and administers
them, as a library verified with Verus.

- `src/` decides. Every function states what it returns, and the laws that hold across functions
  are stated beside them as proof functions.
- `app/` acts: it reads files and databases, runs the Kiro CLI, starts browsers and sends requests.
- `tests/` runs the library on concrete values.

Where decisions and outside work take turns, the library gives a small machine: one method says
what to do next, another takes what came of it.

| Module | What it decides |
| --- | --- |
| `credential_load`, `credential_import` | which login database to read, which rows, and what becomes of the list of credentials |
| `token_record`, `json`, `credentials`, `priority` | how a record describes an account, and how accounts are merged and ordered |
| `kiro_cli`, `oauth_login` | where the Kiro CLI is, how it is run, and how a login goes from logout to imported credentials |
| `login_output`, `browser`, `callback`, `oauth_status`, `redaction` | what the output of a login means, which pages are opened, which callbacks are passed on, and what may be shown |
| `admin_service`, `admin_error`, `admin_types`, `balance_cache`, `endpoints`, `digest` | how requests to the admin interface are answered and what is remembered between them |
| `text`, `words`, `decimal`, `paths`, `arg` | text, numbers, paths and the command line |
