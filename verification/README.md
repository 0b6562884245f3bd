# rivers

Building blocks for keyed event streams, verified with Verus.

- `src/event.rs`, `src/event/tuples.rs`, `src/adapters.rs`: events (key and value
  bytes) and the types read out of them and written into them, tuples of them
  included, with what each read gives and each write leaves.
- `src/bytes.rs`, `src/serde.rs`: byte encodings of small integers, and
  serializers applied to optional parts.
- `src/stream.rs` and `src/stream/`: streams over a topic's broadcast channel and
  the decisions they take between two waits.
- `src/channel.rs` and `src/channel/`, `src/transport.rs`: pull-based pipeline
  stages (map, filter, send to a topic) over a user-supplied transport.
- `src/lib.rs`: the registry that gives each topic one broadcast channel and
  publishes the events on every topic; `src/broadcast.rs` holds the trusted
  declarations of the `tokio` channel it uses, whose handles carry a ghost name
  of their channel and a ghost list of what was sent on it.
- `app/`: the asynchronous side (the `Stream` and `Handler` traits, tasks, and
  the runner), which waits and hands every decision to the library.
