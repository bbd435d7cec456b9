# sed_manager_cli

A command-line tool for self-encrypting drives (TCG Opal, Pyrite, Enterprise
and related SSCs), split in two:

- `src/` is a library verified with Verus. It holds the tool's own logic:
  parsing UIDs given as hexadecimal text (`uid`), deciding which device a
  path names and formatting the device list (`device`), turning the
  `permission`, `range` and `user` sub-commands into requests with their
  UID arguments in checking order (`permission`, `range`, `user`), applying
  a locking-range update (`range`), choosing the authority that a name
  designates (`authority`), the default password and the report after
  activating locking or taking ownership (`provisioning`), and rendering
  the discovery report (`discovery`).
  `text` holds the character-level helpers they share.
- `app/` is the program: argument parsing with `clap`, the `tokio` runtime,
  logging, and every exchange with the drive, which goes through the
  `sed_manager` library of the same project.

The tests under `tests/` exercise the library on concrete values.
