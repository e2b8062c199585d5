//! A client for the STOMP messaging protocol: everything that a session decides.

pub mod channel;
pub mod error;
pub mod event_loop;
pub mod frames;
pub mod handshake;
pub mod laws;
pub mod operations;
pub mod session;
pub mod table;
pub mod text;
