# reliquary_archiver

Captures the network traffic of Honkai: Star Rail and exports the account's
relics, light cones, characters and materials in the format of the Fribbels
HSR optimizer.

- `src/` is the library, written in Verus and verified: the conversion of
  decoded game commands into export records, the exporter state and its
  live events, one exporter per account and connection, pity counting of
  pull sessions, the decisions taken on each captured packet, and the state
  machines of the user interface (connection statistics, web socket server,
  screens, settings, self-update, tray and window commands, the log
  viewer's selection). `src/laws.rs` and the `law_*` proof
  functions of the other modules state what holds across operations.
- `tests/` runs the library on concrete values.
- `app/` is the command-line program around the library: arguments, reading
  the configuration files and capture files, the packet sniffer, and
  writing the export as JSON.
