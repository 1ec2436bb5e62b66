//! Value marshalling and call dispatch for a polyglot runtime.
//!
//! The runtime itself is reached only through a small foreign call surface.
//! This library holds everything that can be decided without touching it:
//! the tagged value type, how values are encoded into constructor requests
//! and decoded from what the runtime's accessors read, the call protocol as a
//! state machine that never leaks or double-releases a handle, and the
//! meaning of the runtime's status codes.

pub mod value;
pub mod codec;
pub mod bridge;
pub mod lifecycle;

pub use value::{Any, Error, ErrorKind};
