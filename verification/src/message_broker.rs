pub mod payload;
pub mod queue;
pub mod transport;
pub mod server;
pub mod consumer;
pub mod producer;
pub mod delivery;
