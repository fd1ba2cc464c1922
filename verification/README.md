# p2p_protos

A multi-node libp2p simulator with a terminal interface, built around a
library whose logic is verified with Verus.

## Layout

- `src/` — the verified library:
  - `handlers.rs`, `effects.rs`, `inputs.rs`: how a node reacts to swarm
    events. Handlers describe what the node should do as data (`Effects`);
    the chain of handlers gives each event to the first one that claims it.
  - `node.rs`: a node's state and the parts of its loop that decide
    (recording logs, connection bookkeeping, answering commands).
  - `network.rs`: the node network's address book and the plan for each
    command from the interface.
  - `history.rs`, `describe.rs`: bounded message logs and their text.
  - `tracker.rs`, `state.rs`, `stats.rs`, `info.rs`, `graph.rs`,
    `strset.rs`, `strmap.rs`, `addr.rs`, `config.rs`, `error.rs`: the data
    the above works on.
  - `tui/`: the interface's state machines — the application, its
    components and their handling of keys, actions and network events.
  - `laws.rs`: properties spanning several operations.
- `app/` — the program around it: command line, tracing, the libp2p swarms,
  the async loops of the nodes, the network and the interface, and drawing.
- `tests/` — tests of the library.
