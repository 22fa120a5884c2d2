//! Boundary and registry layer for a step-by-step workflow engine.
//!
//! The engine itself (how a step resolves variables, picks actions, and
//! decides completion) is an external collaborator; it is consumed through a
//! small set of trusted wrappers in [`engine`]. Everything else — the
//! identifier registry, value marshaling, the advance-outcome resolver, and
//! the JSON envelope encoding of the text binding — is verified here.

pub mod advance_blocked_on;
pub mod engine;
pub mod error;
pub mod json;
pub mod registry;
pub mod result;
pub mod session;
pub mod session_advance_blockedon;
pub mod session_store;
pub mod text;
pub mod value;

pub use registry::Registry;
pub use registry::RegistryError;
