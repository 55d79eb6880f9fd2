//! A per-user deposit ledger: each user identity owns one balance record,
//! which can be initialized, credited by a lamport transfer, and read back.
//!
//! The handlers decide; the host runtime stores records and moves lamports.
//! A deposit is therefore two calls: `deposit` validates the credit and names
//! the transfer to perform, and `complete_deposit` commits the credit once the
//! host reports the transfer's outcome.

pub mod account;
pub mod address;
pub mod error;
pub mod instructions;
pub mod laws;

pub use account::UserDepositAccount;
pub use address::{check_record_address, same_address, user_deposit_address};
pub use error::{ErrorCode, InstructionError};
pub use instructions::{
    complete_deposit, deposit, get_deposit, initialize_user, Deposit, GetDeposit, InitializeUser,
    TransferOrder,
};
