//! What the vault asks of the transfer primitive. The primitive itself lives
//! outside this crate: it either moves exactly the requested amount or moves
//! nothing and reports a failure.

use vstd::prelude::*;
use crate::address::Address;

verus! {

/// Who vouches for a transfer.
#[derive(Clone, Copy, Debug, PartialEq, Eq)]
pub enum Authorization {
    /// The caller signs for their own funds.
    Signer { identity: Address },
    /// The vault's derived authority signs. No key exists for it; the owner
    /// and discriminant it was derived from stand as the proof.
    Derived { authority: Address, owner: Address, discriminant: u8 },
}

/// One movement of `amount` units between two custody accounts.
#[derive(Clone, Copy, Debug, PartialEq, Eq)]
pub struct TransferRequest {
    pub from: Address,
    pub to: Address,
    pub authority: Authorization,
    pub amount: u64,
}

} // verus!
