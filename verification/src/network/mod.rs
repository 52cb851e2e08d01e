//! Fail-closed host authorization of a sandbox's outbound network operations.

pub mod client;
pub mod frame;
pub mod history;
pub mod host;
pub mod message;
pub mod reader;
pub mod session;
pub mod traffic;
