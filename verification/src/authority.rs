//! The derived signing authority: a key-less address computed from a label,
//! the owner's identity and a one-byte discriminant.

use vstd::prelude::*;
use anchor_lang::solana_program::pubkey::Pubkey;
use anchor_lang::solana_program::pubkey::PubkeyError;
use crate::address::Address;
use crate::address::lemma_address_by_bytes;

verus! {

/// The label under which every vault authority is derived: the bytes of
/// the word "vault".
pub const VAULT_LABEL: [u8; 5] = [118, 97, 117, 108, 116];

/// The identity of the program on whose behalf authorities are derived.
pub const PROGRAM_ID: [u8; 32] = [
    155, 207, 169, 124, 65, 162, 152, 176, 68, 124, 96, 5, 106, 22, 253, 52,
    40, 126, 136, 186, 87, 97, 65, 167, 173, 37, 162, 80, 144, 133, 137, 141,
];

/// The error type of `Pubkey::create_program_address`, carried through
/// unopened.
#[verifier::external_type_specification]
#[verifier::external_body]
pub struct ExPubkeyError(PubkeyError);

/// The address that `Pubkey::create_program_address` derives from `seeds`
/// for `program`, or `None` where it reports an error.
pub uninterp spec fn program_address(seeds: Seq<Seq<u8>>, program: Seq<u8>) -> Option<Seq<u8>>;

/// Calls `Pubkey::create_program_address` on the three seeds `label`, the
/// owner's bytes and the single discriminant byte. The derivation is a hash of
/// its arguments followed by a curve-membership test, so the contract only
/// names the outcome: the derived address on success, nothing on an error.
#[verifier::external_body]
fn create_program_address(label: &[u8], owner: &Address, discriminant: u8, program: &Address) -> (r:
    Result<Address, PubkeyError>)
    ensures
        match r {
            Ok(authority) => program_address(seq![label@, owner@, seq![discriminant]], program@)
                == Some(authority@),
            Err(_) => program_address(seq![label@, owner@, seq![discriminant]], program@) is None,
        },
{
    let program_key = Pubkey::new_from_array(program.bytes);
    let seeds: [&[u8]; 3] = [label, &owner.bytes, &[discriminant]];
    match Pubkey::create_program_address(&seeds, &program_key) {
        Ok(key) => Ok(Address { bytes: key.to_bytes() }),
        Err(e) => Err(e),
    }
}

/// The authority that `discriminant` yields for `owner` under `label`, if it
/// yields one at all.
pub open spec fn authority_at(owner: Address, label: Seq<u8>, discriminant: u8) -> Option<Seq<u8>> {
    program_address(seq![label, owner@, seq![discriminant]], PROGRAM_ID@)
}

/// `discriminant` is the one the search settles on: it yields an authority,
/// and no larger discriminant does.
pub open spec fn is_canonical(owner: Address, label: Seq<u8>, discriminant: u8) -> bool {
    &&& authority_at(owner, label, discriminant) is Some
    &&& forall|d: u8| d > discriminant ==> authority_at(owner, label, d) is None
}

/// `expected` is the authority that the three inputs derive.
pub open spec fn verifies(owner: Address, label: Seq<u8>, discriminant: u8, expected: Address) -> bool {
    authority_at(owner, label, discriminant) == Some(expected@)
}

/// Computes the authority for one given discriminant.
pub fn authority_for(owner: &Address, label: &[u8], discriminant: u8) -> (r: Option<Address>)
    ensures
        match r {
            Some(authority) => authority_at(*owner, label@, discriminant) == Some(authority@),
            None => authority_at(*owner, label@, discriminant) is None,
        },
{
    let program = Address { bytes: PROGRAM_ID };
    match create_program_address(label, owner, discriminant, &program) {
        Ok(authority) => Some(authority),
        Err(_) => None,
    }
}

/// Searches the discriminants from 255 down to 0 and returns the first that
/// yields an authority, together with that authority. Returns `None` when no
/// discriminant yields one.
pub fn derive(owner: &Address, label: &[u8]) -> (r: Option<(Address, u8)>)
    ensures
        match r {
            Some((authority, discriminant)) => {
                &&& is_canonical(*owner, label@, discriminant)
                &&& authority_at(*owner, label@, discriminant) == Some(authority@)
            },
            None => forall|d: u8| authority_at(*owner, label@, d) is None,
        },
{
    let mut candidate: u8 = 255;
    loop
        invariant
            forall|d: u8| d > candidate ==> authority_at(*owner, label@, d) is None,
        decreases candidate,
    {
        match authority_for(owner, label, candidate) {
            Some(authority) => {
                return Some((authority, candidate));
            },
            None => {},
        }
        if candidate == 0 {
            return None;
        }
        candidate -= 1;
    }
}

/// Recomputes the authority from the three inputs and compares it with the
/// one the caller expects.
pub fn verify(owner: &Address, label: &[u8], discriminant: u8, expected: &Address) -> (ok: bool)
    ensures
        ok == verifies(*owner, label@, discriminant, *expected),
{
    match authority_for(owner, label, discriminant) {
        Some(authority) => {
            proof {
                lemma_address_by_bytes(authority, *expected);
            }
            authority.same(expected)
        },
        None => false,
    }
}

/// Whatever `derive` returns passes `verify`: the canonical discriminant,
/// presented with the authority it yields, verifies for the same owner and
/// label.
pub proof fn lemma_derived_authority_verifies(
    owner: Address,
    label: Seq<u8>,
    authority: Address,
    discriminant: u8,
)
    requires
        is_canonical(owner, label, discriminant),
        authority_at(owner, label, discriminant) == Some(authority@),
    ensures
        verifies(owner, label, discriminant, authority),
        forall|other: Address| other != authority ==> !verifies(owner, label, discriminant, other),
{
    assert forall|other: Address| other != authority implies !verifies(
        owner,
        label,
        discriminant,
        other,
    ) by {
        lemma_address_by_bytes(other, authority);
    }
}

} // verus!
