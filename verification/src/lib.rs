//! Exclusive reservation of CPU cores and huge-page memory for enclaves on a
//! NUMA host.
//!
//! The library decides; the caller acts. Every strategy is a state machine
//! (`resources::engine::Attempt`) that issues one `Command` at a time for the host's
//! reservation provider and takes the provider's `Reply` back.

pub mod configuration;
pub mod error;
pub mod resources;
