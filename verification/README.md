# tj2

The core of the TJ2 journal server, written in Verus: the rules the server
follows are stated as `requires`/`ensures` contracts and proved.

## Layout

- `src/` — the verified library
  - `hex`, `text`, `path`, `time`: encodings, text helpers, path joining,
    timestamps
  - `db`: identifiers, parameter rows of sql statements, classification of
    database errors, random test data
  - `config`: merging config files into settings; the file system and
    address lookups the merge needs are passed in as `Facts`
  - `journal`: journals, entries, files and custom fields
  - `net`, `header`, `cookie`: request headers, `Location`, `Set-Cookie`
  - `fs`: the steps of replacing, creating and removing files safely, and
    a model of file contents under those steps
  - `router`: the decisions of the http handlers: errors and their
    statuses, plans of what a request changes, the sql it runs, and the
    step functions of the handlers that alternate database and file work
    with decisions (creating, updating and deleting entries, uploads, the
    sync of an entry from a peer)
  - `jobs`: sending journals to peer servers in batches
  - `pki`: private keys and the binary form they are stored in
  - `api`: the messages of the authentication handshake between peers
  - `cli`, `tools`: the setup and management commands
- `tests/` — tests of the library on concrete values
- `app/` — the server process: arguments, reading config files, answering
  the library's questions about paths and addresses, and logging

Calls into other crates (chrono, mime, url, urlencoding, nanoid, rand,
tokio-postgres, tera, bincode, axum's http types) stand behind small trusted
wrappers whose contracts say what those crates document; so do the reads of
std's system clock.
