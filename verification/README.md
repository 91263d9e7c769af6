# terracotta

The decision logic of a launcher's integration with the Terracotta
multiplayer helper, verified with Verus.

- `src/` is the verified library: room-code normalisation (`room`), the
  helper's local request addresses and relay-node list (`request`),
  percent-encoding through the `urlencoding` crate (`encoding`), platform
  keys, executable recognition and release names (`platform`), download
  progress (`download`), the download-and-install state machine
  (`install`), the state shown to the user (`state`), the process
  and port bookkeeping (`runtime`) and the start-up state machine
  (`startup`), over shared string helpers (`text`).
- `app/` performs what the library decides: files, processes, HTTP and the
  serialisable copies of the user-interface types.
- `tests/` runs the library on concrete values.
