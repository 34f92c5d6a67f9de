//! Moving units from the caller's custody account into the vault.

use vstd::prelude::*;
use crate::address::Address;
use crate::custody::custody_owned_by;
use crate::custody::CustodyAccount;
use crate::error::CustomError;
use crate::error::TransferError;
use crate::transfer::Authorization;
use crate::transfer::TransferRequest;
use crate::vault::Movement;
use crate::vault::Vault;

verus! {

/// What `deposit` works on: the vault record, the caller, the caller's own
/// custody account and the vault's custody account.
#[derive(Clone, Debug, PartialEq, Eq)]
pub struct Deposit {
    pub vault: Vault,
    pub user: Address,
    pub user_ata: CustodyAccount,
    pub vault_ata: Address,
}

impl Deposit {
    /// Why the deposit is refused before any transfer is attempted, if it
    /// is. The owner is checked first.
    pub open spec fn refusal(self) -> Option<CustomError> {
        if self.vault.owner != self.user {
            Some(CustomError::NotOwner)
        } else if !custody_owned_by(self.user_ata.data@, self.user) {
            Some(CustomError::InvalidCustodyOwner)
        } else {
            None
        }
    }

    /// The transfer a deposit of `amount` asks for: out of the caller's
    /// custody account, into the vault's, signed by the caller.
    pub open spec fn request(self, amount: u64) -> TransferRequest {
        TransferRequest {
            from: self.user_ata.address,
            to: self.vault_ata,
            authority: Authorization::Signer { identity: self.user },
            amount,
        }
    }

    /// The state and the result once the transfer of `amount` has ended with
    /// `outcome`.
    pub open spec fn settled(self, amount: u64, outcome: Result<(), TransferError>) -> (
        Deposit,
        Result<(), CustomError>,
    ) {
        if outcome is Err {
            (self, Err(CustomError::TransferError))
        } else {
            match self.vault.after(Movement::Deposit { amount }) {
                Some(vault) => (Deposit { vault, ..self }, Ok(())),
                None => (self, Err(CustomError::BalanceOverflow)),
            }
        }
    }

    /// Decides whether a deposit of `amount` may go ahead, and if so which
    /// transfer to ask for. Changes nothing.
    pub fn authorize(&self, amount: u64) -> (r: Result<TransferRequest, CustomError>)
        requires
            amount > 0,
        ensures
            r == match self.refusal() {
                Some(e) => Err::<TransferRequest, CustomError>(e),
                None => Ok::<TransferRequest, CustomError>(self.request(amount)),
            },
    {
        if !self.vault.owner.same(&self.user) {
            return Err(CustomError::NotOwner);
        }
        match self.user_ata.check_owner(&self.user) {
            Ok(()) => {},
            Err(e) => {
                return Err(e);
            },
        }
        Ok(
            TransferRequest {
                from: self.user_ata.address,
                to: self.vault_ata,
                authority: Authorization::Signer { identity: self.user },
                amount,
            },
        )
    }

    /// Commits the deposit once the transfer has ended. The balance grows by
    /// `amount` only if the transfer succeeded and the sum fits; otherwise
    /// nothing changes.
    pub fn settle(&mut self, amount: u64, outcome: Result<(), TransferError>) -> (r: Result<
        (),
        CustomError,
    >)
        ensures
            (*final(self), r) == old(self).settled(amount, outcome),
    {
        match outcome {
            Ok(()) => self.vault.credit(amount),
            Err(_) => Err(CustomError::TransferError),
        }
    }
}

/// Deposits `amount`: checks the caller, asks `transfer` to move the units
/// into the vault's custody account, and credits the record once the
/// transfer has succeeded. `transfer` is not called when the deposit is
/// refused up front.
pub fn deposit<F>(ctx: &mut Deposit, amount: u64, transfer: F) -> (r: Result<(), CustomError>)
    where F: FnOnce(TransferRequest) -> Result<(), TransferError>
    requires
        amount > 0,
        transfer.requires((old(ctx).request(amount),)),
    ensures
        match old(ctx).refusal() {
            Some(e) => r == Err::<(), CustomError>(e) && *final(ctx) == *old(ctx),
            None => exists|outcome: Result<(), TransferError>|
                {
                    &&& #[trigger] transfer.ensures((old(ctx).request(amount),), outcome)
                    &&& (*final(ctx), r) == old(ctx).settled(amount, outcome)
                },
        },
        r is Ok ==> Some(final(ctx).vault) == old(ctx).vault.after(Movement::Deposit { amount }),
        r is Err ==> *final(ctx) == *old(ctx),
        old(ctx).vault.owner != old(ctx).user ==> r == Err::<(), CustomError>(
            CustomError::NotOwner,
        ),
{
    let request = match ctx.authorize(amount) {
        Ok(request) => request,
        Err(e) => {
            return Err(e);
        },
    };
    let outcome = transfer(request);
    ctx.settle(amount, outcome)
}

} // verus!
