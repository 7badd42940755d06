//! Error taxonomy: every failure aborts the whole invocation; nothing is
//! retried internally.

use vstd::prelude::*;

verus! {

/// One error per failure class. Each operation either succeeds or aborts
/// with exactly one of these.
#[derive(Clone, Copy, Debug, PartialEq, Eq, Structural)]
pub enum CoreError {
    /// Instruction bytes malformed: wrong length or unrecognized tag.
    DecodeError,
    /// Caller-supplied derived address does not match the recomputed one.
    AddressMismatchError,
    /// Storage-creation capability rejected the allocation.
    AllocationError,
    /// Target program rejected the forwarded update.
    DelegationError,
    /// No canonical derived address discoverable for the given seeds.
    DerivationError,
    /// The positional account list is shorter than the operation requires.
    MissingAccountError,
}

} // verus!
