# easy-rpc

A cross-language RPC framework on MessagePack, with a protocol core that is verified by Verus.
Both ends of a connection can make requests, also while they handle one, as functions call each
other.

- `src/` is the core. It hands back what is to be sent, and is handed what was received; a
  connection is reached only through the `Adaptor`, and a handler only through the `Service`,
  that it is given.
  - `wire`: the MessagePack values that packets are made of, through `rmp` and `rmpv`
  - `method`, `packet`: methods and the three packets
  - `result`, `reply`: what becomes of a request, and how a call is answered
  - `service`, `session`: adaptors, services, and one end of a connection
  - `shm`, `ws`: how packets go through shared memory and through a WebSocket
  - `laws`, `shm_laws`: what holds of all this together
- `app/` runs the core on threads, locks, sockets and shared memory, and decodes values with
  `serde`.
- `tests/` runs the core on concrete values.

A request is `[0, id, method, args]`, a response `[1, id, error or nil, result]`, a notification
`[2, method, args]`.
