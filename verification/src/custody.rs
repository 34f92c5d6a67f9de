//! Custody accounts: the accounts that physically hold asset units. Their
//! contents belong to the transfer collaborator, so they are validated before
//! anything in them is trusted.

use vstd::prelude::*;
use anchor_lang::AccountDeserialize;
use anchor_spl::token::TokenAccount;
use crate::address::Address;
use crate::address::lemma_address_by_bytes;
use crate::error::CustomError;

verus! {

/// A custody account as presented to an operation: where it lives and the
/// raw bytes it currently holds.
#[derive(Clone, Debug, PartialEq, Eq)]
pub struct CustodyAccount {
    pub address: Address,
    pub data: Vec<u8>,
}

/// The error type of `TokenAccount::try_deserialize`, carried through
/// unopened.
#[verifier::external_type_specification]
#[verifier::external_body]
pub struct ExAccountError(anchor_lang::error::Error);

/// The owner recorded in `data` when `TokenAccount::try_deserialize` accepts
/// `data` as an initialized token account, and `None` when it rejects it.
pub uninterp spec fn token_account_owner(data: Seq<u8>) -> Option<Seq<u8>>;

/// Calls `TokenAccount::try_deserialize` on `data` and hands out the owner
/// field of the account it decodes. Which byte strings decode is left to the
/// name above; of those that do, the contract adds what the unpacking code
/// shows directly: they are 165 bytes long and the owner is bytes 32 to 63.
#[verifier::external_body]
fn try_deserialize_owner(data: &[u8]) -> (r: Result<Address, anchor_lang::error::Error>)
    ensures
        match r {
            Ok(owner) => {
                &&& token_account_owner(data@) == Some(owner@)
                &&& data@.len() == 165
                &&& owner@ == data@.subrange(32, 64)
            },
            Err(_) => token_account_owner(data@) is None,
        },
{
    let mut buf: &[u8] = data;
    match TokenAccount::try_deserialize(&mut buf) {
        Ok(account) => Ok(Address { bytes: account.owner.to_bytes() }),
        Err(e) => Err(e),
    }
}

/// `data` decodes to a token account whose recorded owner is `identity`.
pub open spec fn custody_owned_by(data: Seq<u8>, identity: Address) -> bool {
    token_account_owner(data) == Some(identity@)
}

impl CustodyAccount {
    /// The owner recorded in the account, if its bytes decode to a token
    /// account at all.
    pub fn recorded_owner(&self) -> (r: Option<Address>)
        ensures
            match r {
                Some(owner) => {
                    &&& token_account_owner(self.data@) == Some(owner@)
                    &&& self.data@.len() == 165
                    &&& owner@ == self.data@.subrange(32, 64)
                },
                None => token_account_owner(self.data@) is None,
            },
    {
        match try_deserialize_owner(self.data.as_slice()) {
            Ok(owner) => Some(owner),
            Err(_) => None,
        }
    }

    /// Accepts the account only if it decodes and its recorded owner is
    /// exactly `identity`.
    pub fn check_owner(&self, identity: &Address) -> (r: Result<(), CustomError>)
        ensures
            r == if custody_owned_by(self.data@, *identity) {
                Ok::<(), CustomError>(())
            } else {
                Err::<(), CustomError>(CustomError::InvalidCustodyOwner)
            },
            r is Ok ==> self.data@.len() == 165 && identity@ == self.data@.subrange(32, 64),
    {
        match self.recorded_owner() {
            Some(owner) => {
                proof {
                    lemma_address_by_bytes(owner, *identity);
                }
                if owner.same(identity) {
                    Ok(())
                } else {
                    Err(CustomError::InvalidCustodyOwner)
                }
            },
            None => Err(CustomError::InvalidCustodyOwner),
        }
    }
}

} // verus!
