# download-manager

Resumable HTTP downloads, with the decisions verified by Verus.

A download collects its body in a temporary file. When it is interrupted, the next run asks for
the rest under the validator that was recorded with the first part, so that parts of different
representations are never combined.

- `src/` is the verified library. `download` is the course of a download, as a machine that
  answers each event with the next action; `runs` holds what is true of every run of it.
  `validator`, `entity_tag`, `content_range`, `progress`, `text` and `error` are what it is made
  of. `fields` is the border to `reqwest` and `headers`.
- `app/` carries out the actions: requests, files, and the form in which validators are stored.
- `tests/` runs the library.
