# ups_monitor

A small daemon that polls a UPS network management card over SNMP and shuts
the host down when the UPS has run on battery for too long or its battery is
low.

The decisions are written in Verus and proved against their contracts:

- `src/monitor.rs`: what each sample leads to (reported changes, the
  on-battery countdown, shutdown requests), with the laws of the trigger
  modes as proof functions.
- `src/ups.rs`: reading a sample from the values of one poll (UPS-MIB OIDs,
  configurable value mappings).
- `src/snmp.rs`: SNMP credentials and OIDs, built through `async-snmp`, and
  the text rendering of returned values.
- `src/config.rs`: the configuration, its defaults and its validation.
- `src/install.rs`: the systemd unit and the order of the `init` steps.
- `src/shutdown.rs`: the shutdown command plan and its outcome.
- `src/text.rs`, `src/time.rs`: strings, numbers and spans of time.

`app/` holds the program around it: command line, YAML loading, logging,
the network exchange, the polling loop and file and process I/O.
