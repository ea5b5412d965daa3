//! An authorization and attribute-policy engine: an entitlement and
//! session-grant registry, and an attribute store with writer delegation and
//! anchor-published commitments.
//!
//! The host supplies the caller's identity and the current block height with
//! each call (`CallContext`), persists the records, and takes the event that a
//! successful mutating call returns into its audit log.

pub mod access_registry;
pub mod attribute_store;
pub mod env;
pub mod table;
