//! Moving units from the vault back to the caller's custody account.

use vstd::prelude::*;
use crate::address::Address;
use crate::authority::verifies;
use crate::authority::verify;
use crate::authority::VAULT_LABEL;
use crate::error::CustomError;
use crate::error::TransferError;
use crate::transfer::Authorization;
use crate::transfer::TransferRequest;
use crate::vault::Movement;
use crate::vault::Vault;

verus! {

/// What `withdraw` works on: the vault record, the caller, the caller's own
/// custody account, the vault's custody account, and the address presented
/// as the vault's signing authority.
#[derive(Clone, Copy, Debug, PartialEq, Eq)]
pub struct Withdraw {
    pub vault: Vault,
    pub user: Address,
    pub user_ata: Address,
    pub vault_ata: Address,
    pub vault_signer: Address,
}

impl Withdraw {
    /// Why a withdrawal of `amount` is refused before any transfer is
    /// attempted, if it is. The owner is checked first, then the balance,
    /// then the presented authority.
    pub open spec fn refusal(self, amount: u64) -> Option<CustomError> {
        if self.vault.owner != self.user {
            Some(CustomError::NotOwner)
        } else if self.vault.balance < amount {
            Some(CustomError::InsufficientFunds)
        } else if !verifies(self.user, VAULT_LABEL@, self.vault.bump, self.vault_signer) {
            Some(CustomError::InvalidAuthority)
        } else {
            None
        }
    }

    /// The transfer a withdrawal of `amount` asks for: out of the vault's
    /// custody account, into the caller's, vouched for by the derived
    /// authority together with the owner and discriminant that derive it.
    pub open spec fn request(self, amount: u64) -> TransferRequest {
        TransferRequest {
            from: self.vault_ata,
            to: self.user_ata,
            authority: Authorization::Derived {
                authority: self.vault_signer,
                owner: self.user,
                discriminant: self.vault.bump,
            },
            amount,
        }
    }

    /// The state and the result once the transfer of `amount` has ended with
    /// `outcome`.
    pub open spec fn settled(self, amount: u64, outcome: Result<(), TransferError>) -> (
        Withdraw,
        Result<(), CustomError>,
    ) {
        if outcome is Err {
            (self, Err(CustomError::TransferError))
        } else {
            match self.vault.after(Movement::Withdrawal { amount }) {
                Some(vault) => (Withdraw { vault, ..self }, Ok(())),
                None => (self, Err(CustomError::InsufficientFunds)),
            }
        }
    }

    /// Decides whether a withdrawal of `amount` may go ahead, and if so
    /// which transfer to ask for. Changes nothing.
    pub fn authorize(&self, amount: u64) -> (r: Result<TransferRequest, CustomError>)
        requires
            amount > 0,
        ensures
            r == match self.refusal(amount) {
                Some(e) => Err::<TransferRequest, CustomError>(e),
                None => Ok::<TransferRequest, CustomError>(self.request(amount)),
            },
    {
        if !self.vault.owner.same(&self.user) {
            return Err(CustomError::NotOwner);
        }
        if self.vault.balance < amount {
            return Err(CustomError::InsufficientFunds);
        }
        if !verify(&self.user, &VAULT_LABEL, self.vault.bump, &self.vault_signer) {
            return Err(CustomError::InvalidAuthority);
        }
        Ok(
            TransferRequest {
                from: self.vault_ata,
                to: self.user_ata,
                authority: Authorization::Derived {
                    authority: self.vault_signer,
                    owner: self.user,
                    discriminant: self.vault.bump,
                },
                amount,
            },
        )
    }

    /// Commits the withdrawal once the transfer has ended. The balance
    /// shrinks by `amount` only if the transfer succeeded and the vault holds
    /// that much; otherwise nothing changes.
    pub fn settle(&mut self, amount: u64, outcome: Result<(), TransferError>) -> (r: Result<
        (),
        CustomError,
    >)
        ensures
            (*final(self), r) == old(self).settled(amount, outcome),
    {
        match outcome {
            Ok(()) => self.vault.debit(amount),
            Err(_) => Err(CustomError::TransferError),
        }
    }
}

/// Withdraws `amount`: checks the caller, the balance and the presented
/// authority, asks `transfer` to move the units out of the vault's custody
/// account, and debits the record once the transfer has succeeded.
/// `transfer` is not called when the withdrawal is refused up front.
pub fn withdraw<F>(ctx: &mut Withdraw, amount: u64, transfer: F) -> (r: Result<(), CustomError>)
    where F: FnOnce(TransferRequest) -> Result<(), TransferError>
    requires
        amount > 0,
        transfer.requires((old(ctx).request(amount),)),
    ensures
        match old(ctx).refusal(amount) {
            Some(e) => r == Err::<(), CustomError>(e) && *final(ctx) == *old(ctx),
            None => exists|outcome: Result<(), TransferError>|
                {
                    &&& #[trigger] transfer.ensures((old(ctx).request(amount),), outcome)
                    &&& (*final(ctx), r) == old(ctx).settled(amount, outcome)
                },
        },
        r is Ok ==> Some(final(ctx).vault) == old(ctx).vault.after(Movement::Withdrawal { amount }),
        r is Err ==> *final(ctx) == *old(ctx),
        old(ctx).vault.owner != old(ctx).user ==> r == Err::<(), CustomError>(
            CustomError::NotOwner,
        ),
        old(ctx).vault.owner == old(ctx).user && amount > old(ctx).vault.balance ==> r == Err::<
            (),
            CustomError,
        >(CustomError::InsufficientFunds),
{
    let request = match ctx.authorize(amount) {
        Ok(request) => request,
        Err(e) => {
            return Err(e);
        },
    };
    let outcome = transfer(request);
    ctx.settle(amount, outcome)
}

} // verus!
