//! Docker contexts and the connection to the Docker daemon of the current one.
//!
//! The library decides; what it decides on is handed to it as plain values, and what it asks for is
//! handed back. Work that alternates with the outside is a small machine: it hears an event, and says
//! what it asks for next.

pub mod config;
pub mod connection;
pub mod contexts;
pub mod failure;
pub mod json;
pub mod paths;
pub mod ssh;
pub mod text;
pub mod wsl;
