# rollup_boost (p2p node, verified core)

The Flashblocks peer-to-peer node of rollup-boost, with its logic verified by Verus.

- `src/` is the verified library:
  - `addr.rs`: multiaddresses as sequences of components; the default listen
    address `/ip4/0.0.0.0/tcp/<port>`; appending the node's peer id; splitting
    a known peer's address into its peer id and the address it is reached at.
  - `identity.rs`: the key pair, the peer id derived from it, the cancellation token.
  - `builder.rs`: `NodeBuilder` and the `NodeSettings` a node starts with.
  - `node.rs`: the decisions of the node's event loop, and the swarm commands
    for peers found on the local network.
  - `stream.rs`: the decisions of the task that reads an incoming stream.
  - `flashblocks.rs`: the command-line options, the node's fixed parameters,
    and the settings of the Flashblocks node.
  - `laws.rs`: properties that span several functions or calls.
- `app/` holds the libp2p swarm, the tokio tasks and the clap options, and
  runs the loops whose decisions the library takes.
- `tests/` exercises the library with the real libp2p types.
