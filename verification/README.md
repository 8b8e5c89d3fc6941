# api_view

The model and the decisions of an HTTP API workbench, written in Verus with
their contracts proved.

- `src/` is the verified library:
  - `models` — requests, bodies, authentication, collections, environments,
    history entries and projects; `project_copy` — copies of them and what it
    means for two to hold the same data; `global_state` — the shared project.
  - `api_tab` — the enums and records of the API tab, its editor rows, method
    names and colours, header-name display, the response badge texts.
  - `tab_state` — the tab's state and every edit on it: rows, sending,
    recording responses, saving to collections, keeping `Content-Type` in line
    with the body type.
  - `request` — the URL, headers and body bytes a request goes out with.
  - `history_storage`, `collections_storage` — the rules of the stored history
    and collections.
  - `sql_format`, `json` — SQL pretty-printing and compression, JSON
    re-indenting.
  - `cloud_api`, `user_state` — cloud API errors and the signed-in user.
  - `text`, `encoding`, `ids` — character classes, percent-encoding, base64,
    UUIDs and the clock.
- `app/` is the code around it that Verus does not see: the storage files and
  their serde forms, the gpui globals and the gpui view of the API tab with
  its file and network I/O.
- `tests/` runs the library on concrete values.
