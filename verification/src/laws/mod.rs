//! What each operation of the library does, stated of its calls: what goes in, what comes out,
//! and how calls relate to one another.

pub mod bundles;
pub mod client;
pub mod endpoint;
pub mod framing;
pub mod images;
pub mod session;
pub mod texts;
pub mod transfers;
