use vstd::prelude::*;

verus! {

/// Why a bridge operation was rejected. Every error aborts the whole
/// operation: no state is mutated on any `Err` return.
#[derive(Clone, Copy, Debug, PartialEq, Eq, Structural)]
pub enum BridgeError {
    /// An outbound operation (`lock` or `burn_wrapped`) was given a zero
    /// amount.
    InvalidAmount,
    /// A target address longer than the 64-byte bound was given.
    InvalidTargetAddress,
    /// The `source_tx` of an inbound operation (`release` or `mint_wrapped`)
    /// has already been consumed; this is the replay guard.
    AlreadyProcessed,
    /// The custody layer could not carry the balance change out: a debited
    /// account holds less than the amount, or a credited balance would
    /// exceed the 64-bit range.
    AdapterFailure,
}

} // verus!
