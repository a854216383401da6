//! Delegated-authority layer for a compressed-item registry.
//!
//! A single program-derived identity (the Authority) owns the registry and
//! signs the two privileged operations: creating a registry and issuing an
//! item into a reference collection.  This crate verifies the local logic:
//! deriving the Authority, validating the accounts a caller supplies, and
//! assembling the exact account list and arguments of each outward call.

pub mod accounts;
pub mod addr;
pub mod derivation;
pub mod invoke;
pub mod laws;
pub mod metadata;
pub mod store;

use vstd::prelude::*;

verus! {

} // verus!
