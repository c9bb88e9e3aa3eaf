//! Decision logic of a TCP broadcast server: the append-only client
//! registry, the reaction of a connection handler to each read, and the
//! text the server derives from its host and port.
pub mod address;
pub mod handler;
pub mod laws;
pub mod registry;
