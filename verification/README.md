# graph_processing

A packet-forwarding graph engine: nodes take packets, may change them, and pass them on to
none, some or several further nodes. Worker threads take packets out of shared queues and
walk the graph; spin locks guard the nodes and the shared tables.

## Layout

- `src/` — the verified library (Verus).
  - `engine/graph.rs`: node ids, work packets, the first-in-first-out local queue, nodes,
    the `AcceptWork` trait, what a worker does with a packet (drop, retry or work), and the
    shared work queues (routing by node, the probe order of
    work stealing, growing the queue set).
  - `engine/node_table.rs`: the graph's nodes by id, and the id counter.
  - `engine/spin.rs`, `engine/spin_rw.rs`: the spin lock and the reader-writer spin lock:
    single acquisition attempts and releases; verified decisions on the values an attempt
    loads (which exchange it asks the atomic for, and what the exchange's result gives) and
    on the words a new lock starts with and a release writes; and a model of each lock word
    with proofs that its transitions keep holders mutually exclusive and let waiting writers
    go first. The atomics carry no value in the proofs: that an attempt hands the decided
    words to the atomic, and that the model follows the lock words at run time, is in the
    code, not in a contract.
  - `engine/channel.rs`: the calls into `crossbeam-channel` and `Arc::clone`, with the
    contracts they are trusted to meet.
  - `sockets/`: socket ids and received datagrams.
- `app/` — plain Rust around the library: the blocking lock loops and data access, the
  shared graph, worker threads, UDP sockets and `epoll`, and the two example programs.
- `tests/` — tests of the library.
