use anchor_lang::solana_program::program_option::COption;
use anchor_lang::solana_program::program_pack::Pack;
use anchor_lang::solana_program::pubkey::Pubkey;
use anchor_spl::token::spl_token::state::{Account, AccountState};
use anchor_token::{Address, CustodyAccount, CustomError};

fn holder(fill: u8) -> Address {
    Address { bytes: [fill; 32] }
}

fn token_account_bytes(owner: &Address, amount: u64, state: AccountState) -> Vec<u8> {
    let account = Account {
        mint: Pubkey::new_from_array([200; 32]),
        owner: Pubkey::new_from_array(owner.bytes),
        amount,
        delegate: COption::None,
        state,
        is_native: COption::None,
        delegated_amount: 0,
        close_authority: COption::None,
    };
    let mut data = vec![0u8; Account::LEN];
    account.pack_into_slice(&mut data);
    data
}

fn custody(owner: &Address) -> CustodyAccount {
    CustodyAccount {
        address: holder(90),
        data: token_account_bytes(owner, 500, AccountState::Initialized),
    }
}

#[test]
fn recorded_owner_reads_the_owner_field() {
    let account = custody(&holder(4));
    assert_eq!(account.data.len(), 165);
    assert_eq!(account.recorded_owner(), Some(holder(4)));
    assert_eq!(&account.data[32..64], &holder(4).bytes[..]);
}

#[test]
fn recorded_owner_is_neither_the_mint_nor_the_address() {
    let account = custody(&holder(4));
    let owner = account.recorded_owner().unwrap();
    assert_ne!(owner, account.address);
    assert_ne!(owner.bytes, [200u8; 32]);
}

#[test]
fn check_owner_accepts_the_recorded_owner() {
    assert_eq!(custody(&holder(4)).check_owner(&holder(4)), Ok(()));
}

#[test]
fn check_owner_rejects_someone_else() {
    assert_eq!(
        custody(&holder(4)).check_owner(&holder(5)),
        Err(CustomError::InvalidCustodyOwner)
    );
}

#[test]
fn frozen_account_still_records_its_owner() {
    let account = CustodyAccount {
        address: holder(90),
        data: token_account_bytes(&holder(4), 1, AccountState::Frozen),
    };
    assert_eq!(account.recorded_owner(), Some(holder(4)));
}

#[test]
fn uninitialized_account_has_no_owner() {
    let account = CustodyAccount {
        address: holder(90),
        data: token_account_bytes(&holder(4), 0, AccountState::Uninitialized),
    };
    assert_eq!(account.recorded_owner(), None);
    assert_eq!(account.check_owner(&holder(4)), Err(CustomError::InvalidCustodyOwner));
}

#[test]
fn wrong_length_has_no_owner() {
    let mut data = token_account_bytes(&holder(4), 500, AccountState::Initialized);
    data.push(0);
    let long = CustodyAccount { address: holder(90), data };
    assert_eq!(long.recorded_owner(), None);
    let mut data = token_account_bytes(&holder(4), 500, AccountState::Initialized);
    data.pop();
    let short = CustodyAccount { address: holder(90), data };
    assert_eq!(short.recorded_owner(), None);
    let empty = CustodyAccount { address: holder(90), data: Vec::new() };
    assert_eq!(empty.check_owner(&holder(4)), Err(CustomError::InvalidCustodyOwner));
}

#[test]
fn malformed_option_tag_has_no_owner() {
    let mut data = token_account_bytes(&holder(4), 500, AccountState::Initialized);
    data[72] = 2;
    let account = CustodyAccount { address: holder(90), data };
    assert_eq!(account.recorded_owner(), None);
}

#[test]
fn unknown_state_has_no_owner() {
    let mut data = token_account_bytes(&holder(4), 500, AccountState::Initialized);
    data[108] = 3;
    let account = CustodyAccount { address: holder(90), data };
    assert_eq!(account.recorded_owner(), None);
}
