//! The ways in which a request to the distributor can fail.

use vstd::prelude::*;

verus! {

/// Why a caller was refused a change of ownership or an owner's action.
#[derive(Clone, Copy, Debug, PartialEq, Eq, Structural)]
pub enum OwnershipError {
    /// Ownership has been renounced: there is no owner any more.
    NoOwner,
    /// The caller is not the current owner.
    NotOwner,
    /// The caller is not the account that ownership was offered to.
    NotPendingOwner,
    /// No transfer of ownership is pending.
    TransferNotFound,
    /// A transfer is pending but its deadline has been reached.
    TransferExpired,
}

/// The failures that the distributor reports. None of them leaves a partial
/// change behind.
#[derive(Clone, Copy, Debug, PartialEq, Eq, Structural)]
pub enum ContractError {
    /// The caller may not do what it asked for; the reason says why.
    Unauthorized(OwnershipError),
    /// The pool cannot cover the amount that was asked for or is needed.
    InsufficientFunds,
    /// A recipient that was named is not in the table.
    UnknownTarget,
    /// A threshold above its target, or an identity that the host refuses.
    InvalidPolicy,
}

} // verus!
