//! Creating a vault record.

use vstd::prelude::*;
use crate::address::Address;
use crate::authority::authority_at;
use crate::authority::authority_for;
use crate::authority::VAULT_LABEL;
use crate::error::CustomError;
use crate::vault::Vault;

verus! {

/// What `initialize` works on: the caller, and the storage location that
/// belongs to the caller. The location holds `None` until a record is
/// created there.
#[derive(Clone, Copy, Debug, PartialEq, Eq)]
pub struct Initialize {
    pub vault: Option<Vault>,
    pub user: Address,
}

impl Initialize {
    /// Why creating a record with `bump` is refused, if it is.
    pub open spec fn refusal(self, bump: u8) -> Option<CustomError> {
        if self.vault is Some {
            Some(CustomError::AlreadyInitialized)
        } else if authority_at(self.user, VAULT_LABEL@, bump) is None {
            Some(CustomError::InvalidDiscriminant)
        } else {
            None
        }
    }

    /// The location and the result after an attempt to create a record with
    /// `bump`.
    pub open spec fn initialized(self, bump: u8) -> (Initialize, Result<(), CustomError>) {
        match self.refusal(bump) {
            Some(e) => (self, Err(e)),
            None => (
                Initialize {
                    vault: Some(Vault { owner: self.user, bump, balance: 0 }),
                    ..self
                },
                Ok(()),
            ),
        }
    }
}

/// Creates the caller's vault record with a balance of zero. Refuses with
/// `AlreadyInitialized` when the location is occupied, and otherwise with
/// `InvalidDiscriminant` when `bump` derives no signing authority for the
/// caller. A refusal leaves the location untouched.
pub fn initialize(ctx: &mut Initialize, bump: u8) -> (r: Result<(), CustomError>)
    ensures
        (*final(ctx), r) == old(ctx).initialized(bump),
        r is Ok ==> final(ctx).vault.unwrap().has_authority(),
{
    if ctx.vault.is_some() {
        return Err(CustomError::AlreadyInitialized);
    }
    if authority_for(&ctx.user, &VAULT_LABEL, bump).is_none() {
        return Err(CustomError::InvalidDiscriminant);
    }
    ctx.vault = Some(Vault { owner: ctx.user, bump, balance: 0 });
    Ok(())
}

/// A location takes a record once. After `initialize` has succeeded, another
/// `initialize` on the same location, with any discriminant, is refused with
/// `AlreadyInitialized` and leaves the first record, and so its balance, as
/// it was.
pub proof fn lemma_initialize_only_once(ctx: Initialize, first: u8, second: u8)
    requires
        ctx.initialized(first).1 is Ok,
    ensures
        ctx.initialized(first).0.initialized(second) == (
            ctx.initialized(first).0,
            Err::<(), CustomError>(CustomError::AlreadyInitialized),
        ),
        ctx.initialized(first).0.vault == Some(Vault { owner: ctx.user, bump: first, balance: 0 }),
{
}

} // verus!
