//! Accounting and authorization core of a single-owner custodial vault.
//!
//! A vault record tracks how many units of one asset are held on behalf of
//! its owner. Deposits and withdrawals are mediated by an external transfer
//! primitive; withdrawals are authorized by a key-less address derived from
//! the owner's identity and a stored discriminant.

pub mod address;
pub mod authority;
pub mod custody;
pub mod deposit;
pub mod error;
pub mod history;
pub mod initialize;
pub mod transfer;
pub mod vault;
pub mod withdraw;

pub use address::Address;
pub use custody::CustodyAccount;
pub use deposit::deposit;
pub use deposit::Deposit;
pub use error::CustomError;
pub use error::TransferError;
pub use initialize::initialize;
pub use initialize::Initialize;
pub use transfer::Authorization;
pub use transfer::TransferRequest;
pub use vault::Movement;
pub use vault::Vault;
pub use withdraw::withdraw;
pub use withdraw::Withdraw;
