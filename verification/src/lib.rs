//! A safety bridge between a managed host runtime and a native wallet engine.
//!
//! Every exported operation of the host module follows one cross-call
//! protocol: validate the sizes of the host-owned input buffers, compute the
//! capacity of the output buffer before the native call runs, hand the native
//! engine exclusive access to that buffer, contain any native fault as an
//! ordinary error value, validate the length the engine claims to have
//! written, and convert the surviving bytes into a host-visible value.
//!
//! This crate verifies that protocol. The native engine itself (key
//! derivation math, the AEAD cipher, address and transaction encoding) is an
//! external collaborator: the host layer invokes it between [`bridge::prepare`]
//! and [`bridge::finish`] and reports what happened as a
//! [`bridge::NativeOutcome`], so every decision the bridge makes is verified
//! for every possible engine behaviour.
//!
//! The size-bounded views over host-owned memory are ordinary borrow-checked
//! slices in the host layer, scoped to one call each; what the bridge
//! verifies are their contracts: a request whose buffers miss their declared
//! sizes never reaches the engine, and no byte beyond the capacity the
//! engine legitimately wrote is ever exposed.

pub mod address;
pub mod bridge;
pub mod errors;
pub mod laws;
pub mod ops;
pub mod policy;
pub mod sizes;
pub mod table;
