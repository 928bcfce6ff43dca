# Nelomai client

The decisions of the Nelomai VPN client, written in Rust and proved with Verus,
and the application around them.

- `src/` is the library. It holds what the client decides: how a connection is
  started, stopped and recovered, what is noted and reported of it, how network
  incidents are detected, kept and compacted, how updates are handed over, and
  what the windows and the tray show. Every function is a function of plain
  values. Clocks, files, sockets and the panel are read by the caller, who hands
  in what was read: times are seconds since the epoch, or nanoseconds of a clock
  that never goes back.
- Where work outside the library and decisions take turns, the library has a
  state and a `step`: the caller does what the state asks for and hands back
  what came of it (`stall_recovery`, `service_recovery`, `intent_attempt`,
  `connection_commands`, `platform`).
- The public proof functions named `law_...` state what holds of the library as
  a whole, such as that an incident that was not reported is never removed
  (`incident_laws`), that a sealed report is not disturbed (`report_laws`), or
  that recovery ends (`stall_recovery`).
- Random identifiers, versions and Base64 come from the crates `uuid`, `semver`
  and `base64` (`identifiers`, `versions`, `container`). What is claimed of each
  call stands above it.
- `tests/` runs the library.
- `app/` is the client itself: windows, tray, processes, files and schedulers.
