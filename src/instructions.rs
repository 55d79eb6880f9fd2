use vstd::prelude::*;
use anchor_lang::solana_program::program_error::ProgramError;
use crate::account::{balance_of, UserDepositAccount};
use crate::address::{check_record_address, is_record_address};
use crate::error::{ErrorCode, InstructionError};

verus! {

/// The accounts of an initialization: the calling user, and the slot of the
/// user's record, at the address the host was told.
#[derive(Clone, Copy, Debug)]
pub struct InitializeUser {
    /// The program that owns the records.
    pub program_id: [u8; 32],
    /// The signing user.
    pub user: [u8; 32],
    /// The address of the record slot handed in.
    pub user_deposit_account_key: [u8; 32],
    /// The record, if the slot holds one.
    pub user_deposit_account: Option<UserDepositAccount>,
}

/// The accounts of a deposit: the paying user, and the slot of the user's record.
#[derive(Clone, Copy, Debug)]
pub struct Deposit {
    /// The program that owns the records.
    pub program_id: [u8; 32],
    /// The signing user, whose wallet pays.
    pub user: [u8; 32],
    /// The address of the record slot handed in; it also holds the lamports.
    pub user_deposit_account_key: [u8; 32],
    /// The record, if the slot holds one.
    pub user_deposit_account: Option<UserDepositAccount>,
}

/// The accounts of a balance query: the record slot to read.
#[derive(Clone, Copy, Debug)]
pub struct GetDeposit {
    /// The record, if the slot holds one.
    pub user_deposit_account: Option<UserDepositAccount>,
}

/// A lamport transfer for the host to perform.
#[derive(Clone, Copy, Debug)]
pub struct TransferOrder {
    /// The account debited.
    pub from: [u8; 32],
    /// The account credited.
    pub to: [u8; 32],
    /// How many lamports move.
    pub lamports: u64,
}

impl InitializeUser {
    /// Whether the slot handed in is the one derived from the user's key.
    pub open spec fn addresses_record(self) -> bool {
        is_record_address(self.user@, self.program_id@, self.user_deposit_account_key@)
    }
}

impl Deposit {
    /// Whether the slot handed in is the one derived from the user's key.
    pub open spec fn addresses_record(self) -> bool {
        is_record_address(self.user@, self.program_id@, self.user_deposit_account_key@)
    }
}

/// The record of a slot after lazy creation: the one there, or a new empty one.
pub open spec fn created(slot: Option<UserDepositAccount>) -> UserDepositAccount {
    match slot {
        Some(record) => record,
        None => UserDepositAccount { deposit_amount: 0 },
    }
}

/// The accounts after a successful initialization.
pub open spec fn initialized(ctx: InitializeUser) -> InitializeUser {
    InitializeUser { user_deposit_account: Some(created(ctx.user_deposit_account)), ..ctx }
}

/// The balance a deposit of `amount` leads to, or why it is refused.
pub open spec fn planned_deposit(ctx: Deposit, amount: u64) -> Result<u64, InstructionError> {
    if !ctx.addresses_record() {
        Err(InstructionError::ConstraintSeeds)
    } else if amount == 0 {
        Err(InstructionError::Program(ErrorCode::InvalidAmount))
    } else if balance_of(ctx.user_deposit_account) + amount > u64::MAX {
        Err(InstructionError::Program(ErrorCode::MathOverflow))
    } else {
        Ok((balance_of(ctx.user_deposit_account) + amount) as u64)
    }
}

/// The transfer that pays for a deposit of `amount`.
pub open spec fn transfer_for(ctx: Deposit, amount: u64) -> TransferOrder {
    TransferOrder { from: ctx.user, to: ctx.user_deposit_account_key, lamports: amount }
}

/// The accounts and the result once the host reports the transfer's outcome:
/// the credit is applied exactly when the deposit was valid and the transfer succeeded.
pub open spec fn settled(ctx: Deposit, amount: u64, transfer: Result<(), ProgramError>) -> (Deposit, Result<(), InstructionError>) {
    match planned_deposit(ctx, amount) {
        Err(e) => (ctx, Err(e)),
        Ok(new_balance) => match transfer {
            Ok(()) => (
                Deposit { user_deposit_account: Some(UserDepositAccount { deposit_amount: new_balance }), ..ctx },
                Ok(()),
            ),
            Err(e) => (ctx, Err(InstructionError::Transfer(e))),
        },
    }
}

/// The record in a slot, created empty if the slot holds none.
fn get_or_create(slot: &Option<UserDepositAccount>) -> (r: UserDepositAccount)
    ensures
        r == created(*slot),
        r.deposit_amount == balance_of(*slot),
{
    match slot {
        Some(record) => *record,
        None => UserDepositAccount::new(),
    }
}

/// Makes sure the user's record exists, creating it with a zero balance if the
/// slot is empty; an existing record is left as it is.
pub fn initialize_user(ctx: &mut InitializeUser) -> (r: Result<(), InstructionError>)
    ensures
        old(ctx).addresses_record() ==> r is Ok && *final(ctx) == initialized(*old(ctx)),
        !old(ctx).addresses_record() ==> r is Err && r->Err_0 is ConstraintSeeds && *final(ctx) == *old(ctx),
{
    if !check_record_address(&ctx.user, &ctx.program_id, &ctx.user_deposit_account_key) {
        return Err(InstructionError::ConstraintSeeds);
    }
    let record = get_or_create(&ctx.user_deposit_account);
    ctx.user_deposit_account = Some(record);
    Ok(())
}

/// Checks a deposit of `amount` and stages its credit, without changing
/// anything: on success, gives the transfer from the user's wallet to the
/// record that the host must perform before `complete_deposit`.
pub fn deposit(ctx: &Deposit, amount: u64) -> (r: Result<TransferOrder, InstructionError>)
    ensures
        planned_deposit(*ctx, amount) is Ok ==> r == Ok::<TransferOrder, InstructionError>(transfer_for(*ctx, amount)),
        planned_deposit(*ctx, amount) is Err ==> r is Err && r->Err_0 == planned_deposit(*ctx, amount)->Err_0,
{
    match plan_deposit(ctx, amount) {
        Ok(_) => Ok(TransferOrder { from: ctx.user, to: ctx.user_deposit_account_key, lamports: amount }),
        Err(e) => Err(e),
    }
}

/// Computes the balance a deposit of `amount` leads to, or why it is refused.
fn plan_deposit(ctx: &Deposit, amount: u64) -> (r: Result<u64, InstructionError>)
    ensures
        r == planned_deposit(*ctx, amount),
{
    if !check_record_address(&ctx.user, &ctx.program_id, &ctx.user_deposit_account_key) {
        return Err(InstructionError::ConstraintSeeds);
    }
    if amount == 0 {
        return Err(InstructionError::Program(ErrorCode::InvalidAmount));
    }
    let record = get_or_create(&ctx.user_deposit_account);
    match record.deposit_amount.checked_add(amount) {
        Some(total) => Ok(total),
        None => Err(InstructionError::Program(ErrorCode::MathOverflow)),
    }
}

/// Finishes a deposit of `amount` once the host reports the outcome of the
/// transfer that `deposit` asked for: credits the record, creating it if
/// needed, only when the deposit is valid and the transfer succeeded.
pub fn complete_deposit(ctx: &mut Deposit, amount: u64, transfer: Result<(), ProgramError>) -> (r: Result<(), InstructionError>)
    ensures
        (*final(ctx), r) == settled(*old(ctx), amount, transfer),
{
    match plan_deposit(ctx, amount) {
        Err(e) => Err(e),
        Ok(new_balance) => match transfer {
            Ok(()) => {
                ctx.user_deposit_account = Some(UserDepositAccount { deposit_amount: new_balance });
                Ok(())
            },
            Err(e) => Err(InstructionError::Transfer(e)),
        },
    }
}

/// Reports the stored balance of an existing record; fails if the slot is empty.
pub fn get_deposit(ctx: &GetDeposit) -> (r: Result<u64, InstructionError>)
    ensures
        match ctx.user_deposit_account {
            Some(record) => r == Ok::<u64, InstructionError>(record.deposit_amount),
            None => r is Err && r->Err_0 is AccountNotInitialized,
        },
{
    match ctx.user_deposit_account {
        Some(record) => Ok(record.deposit_amount),
        None => Err(InstructionError::AccountNotInitialized),
    }
}

} // verus!
