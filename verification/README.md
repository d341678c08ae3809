# hdesk_platform

The platform layer of the HDesk remote desktop client, as a Verus library:
the decisions that the Windows and macOS code takes are verified against
their specifications, and the system calls stay outside.

- `src/` — the verified library: the editable-focus logic of both systems
  (rectangles, UI Automation and accessibility stages, the remembered hint),
  the repair of colour cursor masks, the update rules (URLs, release assets,
  download sizes, the update loop and the installation of a download), the
  Windows install, update, uninstall and service scripts, the readers of
  `wmic`, `ls` and `ioreg` output, session lists, display modes and smaller
  helpers.
- `tests/` — tests on concrete values, run against the compiled library.
- `app/` — the I/O around the library: the update loop thread and its HTTP
  downloads, the system commands whose output the library reads, and the
  writing and running of the scripts it composes.
