# relayer

The core of a relayer for a dark pool, verified with Verus.

- `src/circuits`: orders, wallets and matches, with their written forms and
  their counterparts inside an MPC network.
- `src/crypto.rs`: scalars of the curve that keys and randomness live on.
- `src/state.rs`: the wallets and the order book that a relayer keeps.
- `src/api_server`: the handlers of the HTTP API, its routes, and the decisions
  of the HTTP and websocket servers.
- `src/external_events`: price feeds of external exchanges and their
  aggregation into medians.
- `app`: the program around the library. It owns the sockets, the threads, the
  clock and the arithmetic of prices.
- `tests`: the library from outside.
