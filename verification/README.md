# rovs

Open vSwitch protocol logic, verified with Verus.

- `src/openflow`: OpenFlow actions (Nicira extensions included) and their
  wire encoding and decoding, match fields, flow modifications, protocol
  versions and the connection's version and transaction-id decisions.
  Decoding an encoded action list gives the list back.
- `src/ovsdb`: JSON values, UUIDs, OVSDB transactions (operations, topology
  helpers, result processing), rows, schemas, the in-memory replica kept in
  step with update notifications, and the client's requests and its handling
  of replies and notifications.
- `src/transport`: connection addresses (parsed and printed) and the
  reconnection state machine.
- `src/wire.rs`, `src/text.rs`: big-endian byte helpers and decimal and
  hexadecimal text.
- `app/`: the asynchronous side: streams, the JSON-RPC connection, the OVSDB
  client that drives it, serde forms of the schema, and OVSDB atoms and data.
- `tests/`: tests of the library.
