# vmctl

A terminal manager for VMware Fusion virtual machines, in the style of K9s:
list, start, stop, suspend and resume machines; edit their hardware settings;
manage snapshots, clones, NAT port forwarding, shared folders and guest files.

## Layout

- `src/` — the verified library (Verus).
  - `text.rs`, `paths.rs` — character-level text operations with exact
    specifications, and the `std::path` operations the library relies on.
  - `vmx/` — reading, changing and writing `.vmx` configuration files, the
    hardware settings they give, and the laws of reading and writing them.
  - `vm.rs` — machines, their names, and IP addresses derived from MAC addresses.
  - `vmrun/` — the `vmrun` command lines and how each listing it prints is read.
  - `vmrest.rs` — the HTTP exchange with the `vmrest` service and its JSON answers.
  - `manager.rs` — building, ordering and updating the machine list.
  - `ui/` — the views' state, the detail rows and the shared folder settings.
  - `event/` — the interface as a state machine: each key, and each outcome
    of the work it asks for, changes the state and names the next action.
- `tests/` — tests of the library on concrete values.
- `app/` — the program: terminal drawing with ratatui, key input with
  crossterm, system figures with sysinfo, and the processes, files and
  sockets the library's actions call for.
