pub mod connection;
pub mod message;
pub mod registry;
pub mod server;
