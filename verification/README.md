# CAP-CDTS backend

A small backend that keeps users and reports in one JSON file, hands out sessions,
publishes a live snapshot over a WebSocket, and can update itself from its
repository.

The rules are a Verus library under `src/`: every function states what it returns
or changes, and Verus proves it.

| Module | What it holds |
| --- | --- |
| `models` | records, requests and answers, with what each stands for |
| `text`, `paths`, `clock`, `passcode` | texts, Unix paths, instants, passcode hashes |
| `order`, `numbering`, `gpio` | stable sorting, report numbers, the pin assignment |
| `fresh`, `store` | the store: users, reports, pins, and the changes to them |
| `auth` | logins and sessions |
| `api`, `endpoints` | who may do what, and what each request is answered |
| `update`, `settings` | runs of the updater, and the settings |
| `history`, `policy` | what holds over all changes, and of all requests |

Salts, tokens and readings of the clock are drawn in thin functions. Beside each
stands one that takes them as arguments and whose contract fixes the result; its
name ends in `_with` or `_at`.

The library does no I/O. A change of the store is made in memory and answered by a
`Staged` value; the caller writes the data and settles the change with the outcome.
A run of the updater is a sequence of stages; the caller performs the action that
a stage waits for and hands the outcome back. Paths are Unix paths; on Windows the
caller hands in the one path that a run looks at there.

`app/` is the program around the library: settings from the environment, files,
HTTP routes, commands. `tests/` runs the library with the real crates.
