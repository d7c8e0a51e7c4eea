# hydrabadger

A Honey Badger BFT network node. `src/` is the verified library: the node's
state and the decisions it makes (who may propose contributions and votes,
which epoch a new listener hears first, which peers to connect to, what
becomes of an incoming connection, and the rows of the benchmark report).
`app/` runs a node around it: locks, channels, timers, the report file and
console output.

- `src/config.rs`: configuration and its defaults.
- `src/node.rs`: the node (`Hydrabadger`), its view and the laws over it.
- `src/connection.rs`: incoming and outgoing connection decisions.
- `src/addr.rs`: socket addresses as plain values; outgoing targets.
- `src/report.rs`: decimal numerals and the report table.
- `src/message.rs`, `src/error.rs`, `src/state_dsct.rs`: messages, errors,
  state discriminants.
- `src/outside.rs`: the declarations of hbbft, bincode and std types and the
  one call into hbbft (a random secret key).
