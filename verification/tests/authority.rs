use anchor_lang::solana_program::pubkey::Pubkey;
use anchor_token::authority::{authority_for, verify, PROGRAM_ID, VAULT_LABEL};
use anchor_token::Address;
use std::str::FromStr;

fn owner_with(fill: u8) -> Address {
    Address { bytes: [fill; 32] }
}

fn program_key() -> Pubkey {
    Pubkey::new_from_array(PROGRAM_ID)
}

/// An owner whose largest discriminant (255) derives nothing, so that the
/// search has to step down at least once.
fn owner_needing_a_search() -> Address {
    let mut fill: u8 = 0;
    loop {
        let owner = owner_with(fill);
        if authority_for(&owner, &VAULT_LABEL, 255).is_none() {
            return owner;
        }
        assert_ne!(fill, 255);
        fill += 1;
    }
}

#[test]
fn label_is_the_word_vault() {
    assert_eq!(&VAULT_LABEL[..], b"vault");
}

#[test]
fn program_id_matches_its_text_form() {
    let key = Pubkey::from_str("BVDrLAadH4UztWb68aykei6Af1L1Vj2cJHv91G9AqNu2").unwrap();
    assert_eq!(key.to_bytes(), PROGRAM_ID);
}

#[test]
fn same_compares_every_byte() {
    let a = owner_with(9);
    let mut b = a;
    assert!(a.same(&b));
    b.bytes[31] = 10;
    assert!(!a.same(&b));
    b.bytes[31] = 9;
    b.bytes[0] = 0;
    assert!(!a.same(&b));
}

#[test]
fn authority_for_agrees_with_the_key_derivation() {
    for fill in 0..40u8 {
        let owner = owner_with(fill);
        for bump in [255u8, 254, 253, 7, 0] {
            let expected =
                Pubkey::create_program_address(&[b"vault", &owner.bytes, &[bump]], &program_key())
                    .ok()
                    .map(|key| key.to_bytes());
            let got = authority_for(&owner, &VAULT_LABEL, bump).map(|a| a.bytes);
            assert_eq!(got, expected);
        }
    }
}

#[test]
fn authority_is_not_the_owner_handed_back() {
    let owner = owner_with(3);
    let (authority, _) = anchor_token::authority::derive(&owner, &VAULT_LABEL).unwrap();
    assert_ne!(authority, owner);
    assert_ne!(authority.bytes, PROGRAM_ID);
}

#[test]
fn derive_finds_the_canonical_discriminant() {
    for fill in 0..40u8 {
        let owner = owner_with(fill);
        let (key, bump) = Pubkey::find_program_address(&[b"vault", &owner.bytes], &program_key());
        let (authority, discriminant) =
            anchor_token::authority::derive(&owner, &VAULT_LABEL).unwrap();
        assert_eq!(discriminant, bump);
        assert_eq!(authority.bytes, key.to_bytes());
    }
}

#[test]
fn derive_steps_past_discriminants_that_yield_nothing() {
    let owner = owner_needing_a_search();
    let (authority, discriminant) = anchor_token::authority::derive(&owner, &VAULT_LABEL).unwrap();
    assert!(discriminant < 255);
    for above in (discriminant + 1)..=255 {
        assert_eq!(authority_for(&owner, &VAULT_LABEL, above), None);
    }
    assert_eq!(authority_for(&owner, &VAULT_LABEL, discriminant), Some(authority));
}

#[test]
fn derive_is_deterministic() {
    let owner = owner_with(77);
    let first = anchor_token::authority::derive(&owner, &VAULT_LABEL);
    let second = anchor_token::authority::derive(&owner, &VAULT_LABEL);
    assert!(first.is_some());
    assert_eq!(first, second);
}

#[test]
fn derive_gives_up_on_an_overlong_label() {
    let label = [1u8; 33];
    assert_eq!(anchor_token::authority::derive(&owner_with(1), &label), None);
    assert_eq!(authority_for(&owner_with(1), &label, 255), None);
}

#[test]
fn derived_authority_verifies() {
    for fill in 0..40u8 {
        let owner = owner_with(fill);
        let (authority, discriminant) =
            anchor_token::authority::derive(&owner, &VAULT_LABEL).unwrap();
        assert!(verify(&owner, &VAULT_LABEL, discriminant, &authority));
    }
}

#[test]
fn verify_fails_when_one_input_changes() {
    let owner = owner_with(5);
    let (authority, discriminant) = anchor_token::authority::derive(&owner, &VAULT_LABEL).unwrap();
    assert!(verify(&owner, &VAULT_LABEL, discriminant, &authority));
    assert!(!verify(&owner_with(6), &VAULT_LABEL, discriminant, &authority));
    assert!(!verify(&owner, b"vaulu", discriminant, &authority));
    assert!(!verify(&owner, b"", discriminant, &authority));
    for other in 0..=255u8 {
        if other != discriminant {
            assert!(!verify(&owner, &VAULT_LABEL, other, &authority));
        }
    }
    assert!(!verify(&owner, &VAULT_LABEL, discriminant, &owner));
}

#[test]
fn verify_fails_for_a_discriminant_that_yields_nothing() {
    let owner = owner_needing_a_search();
    let (authority, _) = anchor_token::authority::derive(&owner, &VAULT_LABEL).unwrap();
    assert!(!verify(&owner, &VAULT_LABEL, 255, &authority));
}
