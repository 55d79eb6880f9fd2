use vstd::prelude::*;
use anchor_lang::solana_program::program_error::ProgramError;
use crate::account::{balance_of, UserDepositAccount};
use crate::error::{ErrorCode, InstructionError};
use crate::instructions::{initialized, planned_deposit, settled, transfer_for, Deposit, InitializeUser};

verus! {

/// Initializing a user whose record is absent leaves a record with a zero
/// balance, and initializing once more changes nothing.
pub proof fn initialize_creates_empty_record_once(ctx: InitializeUser)
    requires
        ctx.addresses_record(),
        ctx.user_deposit_account is None,
    ensures
        initialized(ctx).user_deposit_account == Some(UserDepositAccount { deposit_amount: 0 }),
        initialized(ctx).addresses_record(),
        initialized(initialized(ctx)) == initialized(ctx),
{
}

/// A valid deposit that cannot overflow asks for a transfer of exactly `amount`
/// lamports from the user's wallet to the record; the record goes from `n` to
/// `n + amount` when that transfer succeeds, and nothing changes when it fails.
pub proof fn deposit_credits_exactly_the_transfer(ctx: Deposit, amount: u64, failure: ProgramError)
    requires
        ctx.addresses_record(),
        amount > 0,
        balance_of(ctx.user_deposit_account) + amount <= u64::MAX,
    ensures
        planned_deposit(ctx, amount) is Ok,
        transfer_for(ctx, amount).from == ctx.user,
        transfer_for(ctx, amount).to == ctx.user_deposit_account_key,
        transfer_for(ctx, amount).lamports == amount,
        settled(ctx, amount, Ok(())).1 is Ok,
        settled(ctx, amount, Ok(())).0.user_deposit_account is Some,
        balance_of(settled(ctx, amount, Ok(())).0.user_deposit_account) == balance_of(ctx.user_deposit_account) + amount,
        settled(ctx, amount, Err(failure)) == (ctx, Err::<(), InstructionError>(InstructionError::Transfer(failure))),
{
}

/// A deposit of zero lamports is refused with `InvalidAmount`, asks for no
/// transfer, and leaves the record as it was whatever the host reports.
pub proof fn zero_deposit_is_refused(ctx: Deposit, transfer: Result<(), ProgramError>)
    requires
        ctx.addresses_record(),
    ensures
        planned_deposit(ctx, 0) == Err::<u64, InstructionError>(InstructionError::Program(ErrorCode::InvalidAmount)),
        settled(ctx, 0, transfer) == (ctx, Err::<(), InstructionError>(InstructionError::Program(ErrorCode::InvalidAmount))),
{
}

/// A deposit whose sum with the balance exceeds 64 bits is refused with
/// `MathOverflow` before any transfer is asked for, and leaves the record as
/// it was whatever the host reports.
pub proof fn overflowing_deposit_is_refused(ctx: Deposit, amount: u64, transfer: Result<(), ProgramError>)
    requires
        ctx.addresses_record(),
        amount > 0,
        balance_of(ctx.user_deposit_account) + amount > u64::MAX,
    ensures
        planned_deposit(ctx, amount) == Err::<u64, InstructionError>(InstructionError::Program(ErrorCode::MathOverflow)),
        settled(ctx, amount, transfer) == (ctx, Err::<(), InstructionError>(InstructionError::Program(ErrorCode::MathOverflow))),
{
}

} // verus!
