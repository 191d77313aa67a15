# castled

A tunnel that exposes local TCP, UDP and HTTP services through a public
server, with the decisions of client and server verified by Verus.

- `src/` is the verified library: the wire messages, the client's tunnel
  configuration, the server's port pool, its HTTP routing table, the
  entrypoints announced to clients, the relay of HTTP response heads, and
  the step functions that the network loops call. `src/ext/` declares the
  outside code that the library calls (dashmap, rand, httparse and a few std
  functions) with the contracts that the proofs rely on.
- `app/` is the program around it: the `castle` client and the `castled`
  server as two subcommands, the gRPC service, the sockets and the tasks
  that move bytes.
- `tests/` runs the library on concrete values.
