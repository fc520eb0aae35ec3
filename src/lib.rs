//! Client identity and configuration for a desktop companion of a
//! control-plane server: the stored configuration and its defaults, the
//! resolution of a server address into host and port, and the registration
//! handshake that obtains a credential from the server.
//!
//! Network and file access are left to the caller: the handshake says which
//! request to make next and takes back what came of it.

pub mod address;
pub mod config;
pub mod handshake;
