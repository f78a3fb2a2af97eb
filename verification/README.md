# tailsnip

A library and command-line program that move clipboard text between devices
on a private network. The library holds the verified parts: configuration
validation and the peer table, bearer-token authentication, the replies the
daemon sends, how the client reports failures, which clipboard backend a host
uses and how clipboard commands are judged, and the command line. The program
in `app/` does the I/O around it: files, environment, processes, HTTP.

- `src/text.rs` character-level helpers (blank, trim, ASCII case, ordering, decimal)
- `src/error.rs` the error type and the text each error is reported with
- `src/types.rs` the values peers exchange
- `src/devices.rs` the peer table, kept in ascending alias order
- `src/config.rs` validation of the configuration file and the template
- `src/clipboard.rs` backends, their commands and the judging of their outcomes
- `src/daemon.rs` authentication and replies of the daemon
- `src/transport.rs` the client side of the peer protocol
- `src/cmd.rs` the command line, `devices` output and the checks of `send`/`get`

## The peer table

Peers are keyed by their alias, a `String`. vstd specifies `BTreeMap` only
for keys whose ordering it knows to be a total order, which it does not state
of `String`, so a `BTreeMap<String, _>` could be used from verified code but
nothing about its contents could be proved. `DeviceTable` therefore keeps the
peers in a `Vec` whose type invariant is that the aliases are strictly
ascending (compared character by character, as `String`'s ordering does).
Its view is the map from alias to address, and `entries` gives the peers in
the order a `BTreeMap` would iterate them, so lookups, insertion and listing
behave as the map does while each of them is proved.

Socket addresses are parsed in `app/` (the library does not use `std::net`)
and handed to the library with the text they were written as, in
`WrittenAddress`.
