# razor_rpc (verified core)

The decision logic of a modular RPC framework, written in Verus with its
contracts proved:

- `error`, `codec`, `rpc_error`: internal error codes and their `rpc_` string
  forms, the encoded error that travels on the wire, the codec trait for error
  types (with its built-in implementations for integers, `()`, `String` and
  `nix::errno::Errno`), and the error type RPC methods return.
- `failover`, `failover_task`: routing of a failover pool over several nodes,
  round-robin or leader-based; retries, redirects (including to a node not yet
  known), replacement of the node list, and the retry limits.
- `api_task`: the bookkeeping of a remote API call and how its outcome becomes
  the call's result.
- `throttler`, `config`, `facts`, `server`, `cluster`: the in-flight window,
  default configurations, server responses, and the error and leader state of
  a leader/follower service.

`app/` holds the asynchronous plumbing (tasks, channels, waiting) that moves
requests between connections according to the library's decisions, and the
`endpoint_client!` macro.
