//! Why an operation of the market maker was refused.
use vstd::prelude::*;

verus! {

/// Each refusal leaves the state as it was.
#[derive(Debug, Clone, Copy, PartialEq, Eq, Structural)]
pub enum AmmError {
    /// A caller other than the owner asked for an owner-only operation.
    Unauthorized,
    /// The asset is neither of the two the pool trades.
    UnknownAsset,
    /// A ledger balance is smaller than the amount to take from it.
    InsufficientBalance,
    /// A reserve is zero, so no swap can be priced.
    InsufficientLiquidity,
    /// The pool has already been set up.
    AlreadyInitialized,
    /// The owner's account identity is malformed.
    InvalidOwner,
    /// A result does not fit in its integer width.
    Overflow,
}

} // verus!
