//! Portable prepared root filesystems and the image metadata that they are bound to.

pub mod digest;
pub mod error;
pub mod export;
pub mod files;
pub mod hashing;
pub mod import;
pub mod manifest;
pub mod metadata;
pub mod prepared;
pub mod sparse;
pub mod store;
