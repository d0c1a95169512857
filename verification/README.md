# Siffleux

Siffleux is a self-hosted tunnel: a client behind a NAT keeps a QUIC connection to
a public server, and the server sends the TCP connections and UDP datagrams that
reach its ingresses through that connection to the client's egresses.

## Layout

- `src/` is the library, written in Verus. It holds the logic of the tunnel with
  its contracts and proofs: the identifiers and auth keys, the command frames and
  the datagram framing, the handshake and command-stream decisions of both ends,
  the registries of ingresses and egresses, the round robin over tunnels, the
  reconnection loop of an egress, the lifecycle of servers, ingresses and egresses,
  the settings read from the command line and from TOML files, certificate
  pinning, and the hexadecimal keys, the Noise handshake and the Noise sealing of
  the UDP prototype.
  The calls into outside crates (Argon2, SHA-256, Base64, `getrandom`, `rcgen`,
  `snow`) go through a few trusted functions whose contracts say what is assumed
  of them.
- `tests/` runs the library on concrete values.
- `app/` is the program around the library: the command line, the TOML files, the
  QUIC endpoints, sockets and tasks. It performs the I/O and asks the library for
  each decision.
