//! Verified core of a sandbox runtime's host-controlled networking and of its portable
//! prepared root filesystems.
//!
//! [`network`] holds the control protocol between a sandbox runtime and the host that
//! authorizes its outbound traffic: bounded framing, the runtime's client and the host's
//! endpoint. [`image`] holds what binds a prepared root filesystem to the image it was made
//! from, and what an export or an import of one decides. [`laws`] states what each operation
//! does, in terms of what goes into a call of it and what comes out.

pub mod fault;
pub mod image;
pub mod laws;
pub mod network;
pub mod text;
