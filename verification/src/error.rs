//! The ways an operation on a vault can be refused.

use vstd::prelude::*;

verus! {

/// Why an operation was refused. Every refusal is final for the call that
/// produced it, and every refusal leaves the vault record as it was.
#[derive(Clone, Copy, Debug, PartialEq, Eq, Structural)]
pub enum CustomError {
    /// A vault record already exists for this owner.
    AlreadyInitialized,
    /// The discriminant derives no signing authority for this owner.
    InvalidDiscriminant,
    /// The caller is not the owner recorded in the vault.
    NotOwner,
    /// The withdrawal asks for more than the vault holds.
    InsufficientFunds,
    /// The custody account offered as the source does not belong to the caller.
    InvalidCustodyOwner,
    /// The presented authority is not the one derived for this vault.
    InvalidAuthority,
    /// Crediting the deposit would exceed what a balance can hold.
    BalanceOverflow,
    /// The transfer primitive reported a failure.
    TransferError,
}

/// A failure reported by the transfer primitive. Its cause is not
/// distinguished further here.
#[derive(Clone, Copy, Debug, PartialEq, Eq, Structural)]
pub struct TransferError;

} // verus!
