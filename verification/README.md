# rust_es

An event-sourcing toolkit and a small message broker, written in Verus.

- `src/cqrs/`: the aggregate, command and domain-event traits, the error a
  command is refused with, and a given / when / then harness for testing
  aggregates. `src/event.rs` holds the variant of the domain-event trait whose
  events can be compared and printed.
- `src/message_broker/`: the broker's wire protocol as state machines. Each
  side of a connection (broker for producers, broker for consumers, producer,
  consumer) takes one read at a time and says what to do next. The queue of
  waiting messages and the laws of the protocol (`delivery.rs`) are here too.
- `src/stream_broker.rs`: the protocol of the standalone server, where a
  producer's connection carries one message that ends when the connection
  closes.
- `app/`: the sockets, tokio tasks and locks that drive those state machines,
  and the driver-balance domain, whose money is floating point.
