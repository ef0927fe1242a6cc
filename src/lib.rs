//! A synchronous client façade over a connection engine: every operation is
//! gated on the client's lifecycle, released resource handles leave cleanup
//! records behind, and shutdown drains those records before closing.

pub mod client;
pub mod error;
pub mod lifecycle;
pub mod options;
pub mod registry;
pub mod uri;
