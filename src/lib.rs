//! Carries a host-runtime handle through a structural serialization pass.
//!
//! A field that holds an opaque handle is written to the wire as the fixed
//! sentinel `0`; the handle itself waits in a single-capacity relay slot
//! until the matching decode takes it back out.
pub mod preserve;
pub mod relay;
