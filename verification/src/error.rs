use vstd::prelude::*;

verus! {

/// Why a call on the ledger was turned down.
///
/// A call that is turned down leaves the ledger exactly as it found it.
#[derive(Clone, Copy, Debug, PartialEq, Eq, Structural)]
pub enum ErrorCode {
    /// The caller is not the authority that the ledger records.
    Unauthorized,
    /// A counter would leave the range of an unsigned 64-bit integer.
    ArithmeticOverflow,
    /// A ledger already stands at the address where one was to be created.
    AllocationError,
}

} // verus!
