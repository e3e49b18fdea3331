# portaldoctor

Deterministic, read-only diagnostics for XDG desktop portals, Wayland sessions
and PipeWire screen sharing on Linux.

The library in `src/` is written in Verus and proved:

- `model/` — the normalized snapshot, findings and probe results, with their
  well-formedness rules.
- `collectors/` — parsers and decisions for everything read from the system:
  environment variables, `os-release`, portal configuration and descriptors,
  `systemctl`, `journalctl`, `pw-dump`, `wpctl`, D-Bus name ownership, and the
  poll loop of bounded subprocess runs.
- `resolver/` — search paths and portal route resolution.
- `rules/` — the diagnostic rule catalog and its evaluation.
- `report/` — terminal, Markdown and portal renderers, and shareable-report
  redaction.
- `remediation.rs` — the dry-run remediation preview.
- `probes/` — the decisions of the active FileChooser, Screenshot and
  ScreenCast probes, the ScreenCast lifecycle as a state machine, and the
  laws its runs obey.
- `compatibility.rs`, `diagnostics.rs` — the compatibility and capability
  inventories.

`app/` is the command-line program around it: argument parsing, file and
process access, the session bus, JSON output and the D-Bus calls of the
probes. `tests/` holds the tests of the library.
