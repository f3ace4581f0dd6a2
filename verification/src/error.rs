use vstd::prelude::*;

verus! {

/// Why a call was refused before any cross-program invocation was issued.
#[derive(Clone, Copy, PartialEq, Eq, Structural, Debug)]
pub enum ErrorCode {
    /// A caller-supplied account does not match the address recomputed
    /// from its role's seed scheme.
    AddressMismatch,
    /// No disambiguation value in the search range yields a valid
    /// derived address for the requested seeds.
    NoValidBump,
    /// The atomic entry point was invoked without a qualifying buy
    /// instruction scheduled later in the same transaction.
    BuyInstructionMissing,
    /// Malformed caller arguments.
    InvalidInput,
}

} // verus!
