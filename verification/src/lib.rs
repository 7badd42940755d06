//! Ledger-resident coordination library: deterministic derivation of
//! per-user record addresses, fixed-layout instruction codec, and a
//! router that plans delegated operations against downstream record
//! programs.

use vstd::prelude::*;

pub mod addressing;
pub mod codec;
pub mod delegation;
pub mod errors;
pub mod router;

verus! {

} // verus!
