//! Verified core of a small secret-distribution service: a client announces
//! its host name over UDP, and the server, after pinning the host's SSH key
//! on first use, copies the configured secrets onto that host over SSH.

pub mod args;
pub mod client;
pub mod command;
pub mod config;
pub mod hostkeys;
pub mod remote;
pub mod server;
pub mod text;
