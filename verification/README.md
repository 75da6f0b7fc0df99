# nodegroup

The state of a group of servers that run deployed applications, and the decisions
that the scheduler of the group takes over it. The library in `src/` is written in
Verus: every function states its contract, and the contracts are proved. A few
items stand at the edge to other crates and are believed without proof: in
`src/id.rs` three wrappers of `uuid` and a name for what its parser returns, and in
`src/server/daemon.rs` the type `Sender` of `tokio` with its `clone`. What a
strategy picks is left to its author.

- `src/id.rs`: ids, and their texts
- `src/error.rs`: errors, and the status with which a request is refused
- `src/proto.rs`: the messages that servers and schedulers exchange
- `src/info.rs`: servers, groups and deployments, and their messages
- `src/scheduler/`: the cluster, the state of a scheduler, and how it answers
  requests, step by step
- `src/server/`: the daemon of a server
- `src/laws.rs`: what holds of the library as a whole
- `app/`: the gRPC side, which carries out what the library decides
