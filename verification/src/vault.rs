//! The vault record: who owns the vault, which discriminant derives its
//! signing authority, and how many units it holds.

use vstd::prelude::*;
use crate::address::Address;
use crate::authority::authority_at;
use crate::authority::VAULT_LABEL;
use crate::error::CustomError;

verus! {

/// The persistent state of one owner's vault.
#[derive(Clone, Copy, Debug, PartialEq, Eq)]
pub struct Vault {
    /// The sole identity allowed to move funds. Never changes.
    pub owner: Address,
    /// The discriminant that derives the vault's signing authority. Never
    /// changes.
    pub bump: u8,
    /// Units currently held on the owner's behalf.
    pub balance: u64,
}

/// A completed movement of units into or out of a vault.
#[derive(Clone, Copy, Debug, PartialEq, Eq)]
pub enum Movement {
    Deposit { amount: u64 },
    Withdrawal { amount: u64 },
}

impl Vault {
    /// The stored discriminant derives a signing authority for the owner.
    pub open spec fn has_authority(self) -> bool {
        authority_at(self.owner, VAULT_LABEL@, self.bump) is Some
    }

    /// The record once `movement` is accounted for, or `None` when the
    /// balance cannot take it: a deposit that would not fit, a withdrawal of
    /// more than is held. Only the balance differs.
    pub open spec fn after(self, movement: Movement) -> Option<Vault> {
        match movement {
            Movement::Deposit { amount } => if self.balance + amount <= u64::MAX {
                Some(Vault { balance: (self.balance + amount) as u64, ..self })
            } else {
                None
            },
            Movement::Withdrawal { amount } => if amount <= self.balance {
                Some(Vault { balance: (self.balance - amount) as u64, ..self })
            } else {
                None
            },
        }
    }

    /// Adds `amount` to the balance, or refuses with `BalanceOverflow` and
    /// changes nothing when the sum would not fit.
    pub fn credit(&mut self, amount: u64) -> (r: Result<(), CustomError>)
        ensures
            match old(self).after(Movement::Deposit { amount }) {
                Some(vault) => r == Ok::<(), CustomError>(()) && *final(self) == vault,
                None => r == Err::<(), CustomError>(CustomError::BalanceOverflow) && *final(self)
                    == *old(self),
            },
    {
        match self.balance.checked_add(amount) {
            Some(sum) => {
                self.balance = sum;
                Ok(())
            },
            None => Err(CustomError::BalanceOverflow),
        }
    }

    /// Takes `amount` from the balance, or refuses with `InsufficientFunds`
    /// and changes nothing when the vault holds less.
    pub fn debit(&mut self, amount: u64) -> (r: Result<(), CustomError>)
        ensures
            match old(self).after(Movement::Withdrawal { amount }) {
                Some(vault) => r == Ok::<(), CustomError>(()) && *final(self) == vault,
                None => r == Err::<(), CustomError>(CustomError::InsufficientFunds) && *final(self)
                    == *old(self),
            },
    {
        match self.balance.checked_sub(amount) {
            Some(rest) => {
                self.balance = rest;
                Ok(())
            },
            None => Err(CustomError::InsufficientFunds),
        }
    }
}

} // verus!
