//! Local inter-process transport: wire format, peer authentication and endpoint naming.

pub mod wire;
pub mod auth;
pub mod handshake;
pub mod pipe_access;
pub mod endpoint;
pub mod envelope;
