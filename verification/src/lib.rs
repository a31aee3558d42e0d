//! An event-sourcing toolkit (aggregates, commands, domain events and a test
//! harness for them) and a small message broker whose wire protocol is
//! modelled and verified here; the sockets, tasks and locks live in the
//! application.
pub mod cqrs;
pub mod event;
pub mod message_broker;
pub mod stream_broker;
