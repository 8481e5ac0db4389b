//! A safe bridge to a callback-driven text preprocessing engine.
//!
//! The engine itself lives across a C-callable boundary. This library holds
//! the logic of the bridge: how text is converted to and from the boundary's
//! terminated byte strings, the values handed to and from the callbacks, and
//! the ownership protocol of a processing session, which guarantees that every
//! allocation made for a run is released exactly once.
pub mod boundary;
pub mod diagnostic;
pub mod session;
pub mod stream;
