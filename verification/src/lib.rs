//! The verified core of a privilege-separated SSH server and of its
//! companion client connection driver.
//!
//! Nothing in this crate performs I/O. Every module is a set of decisions
//! over plain values: the caller reads sockets, spawns processes and awaits
//! mailboxes, hands what it saw to these functions, and carries out what they
//! tell it to do.

pub mod client;
pub mod codec;
pub mod connection;
pub mod message;
pub mod monitor;
pub mod session;
pub mod transport;
pub mod wire;
