# zenpaws

The core of a LAN-only, peer-to-peer desktop messenger with desktop pets,
written in Verus: every rule the peers follow is an executable function with
a contract, and the properties that span functions are proved as laws.

## Layout

- `src/` — the verified library.
  - `ids`, `time`, `bytes`, `text`: UUID values, monotonic time, byte copies,
    display-name validation.
  - `shared`, `trust`: connection and pet states, the event type and bus,
    certificate pins, trusted-peer records, trust on first use and the
    trusted-peer table.
  - `backoff`, `state`: reconnect delays and one peer's connection lifecycle.
  - `protocol`, `session`: the wire envelope, Lamport last-writer-wins order,
    length-prefixed framing, and the post-TLS handshake.
  - `tls`: certificate pins, TOFU decisions, TLS identities and configurations.
  - `discovery`, `udp`: the DNS-SD TXT advertisement and its decoding, and the
    UDP broadcast fallback.
  - `service`: the network service's decisions (logs, discovery admission,
    inbound dispatch, reconnect policy).
  - `database`, `chat`: message records and their decoding, receipt rules,
    composing and replicating messages, and the store writes each replicated
    event calls for.
  - `pets`, `settings`: pet states, broadcast rate limits, the pet runtime,
    movement choice; the local identity.
- `tests/` — tests of the library on concrete values.
- `app/` — the program around the library: sockets, TLS streams, mDNS,
  SQLite, files, serialization and the event loop. It holds no rule of its
  own; floating-point cursor geometry and pet manifests stay here.
