pub mod aggregate;
pub mod command;
pub mod event;
pub mod testing;
