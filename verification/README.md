# chiselstore RPC conversions

The verified core of the RPC layer of a replicated SQLite store whose log is
kept by sequence paxos with ballot leader election.

- `src/paxos.rs`: the consensus messages as plain values, with views.
- `src/proto.rs`: the messages of the RPC wire format, with views.
- `src/encode.rs`: consensus message to wire message, each with the spec of its result.
- `src/decode.rs`: when a wire message is complete, and wire message to consensus message.
- `src/roundtrip.rs`: proofs that a message survives the trip over the wire.
- `src/query.rs`: the rows of a query's answer in wire form.
- `app/`: connection pooling, the transport that sends messages to peers, the
  service that receives them, and the protobuf copies of the wire types.
