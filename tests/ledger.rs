use anchor_lang::solana_program::program_error::ProgramError;
use anchor_lang::solana_program::pubkey::Pubkey;
use simple_deposit::{
    check_record_address, complete_deposit, deposit, get_deposit, initialize_user,
    same_address, user_deposit_address, Deposit, ErrorCode, GetDeposit, InitializeUser,
    InstructionError, UserDepositAccount,
};

const PROGRAM: [u8; 32] = [9u8; 32];
const USER: [u8; 32] = [3u8; 32];

fn record_key(user: &[u8; 32]) -> [u8; 32] {
    user_deposit_address(user, &PROGRAM).expect("a record address exists").0
}

fn init_ctx(slot: Option<UserDepositAccount>) -> InitializeUser {
    InitializeUser {
        program_id: PROGRAM,
        user: USER,
        user_deposit_account_key: record_key(&USER),
        user_deposit_account: slot,
    }
}

fn deposit_ctx(slot: Option<UserDepositAccount>) -> Deposit {
    Deposit {
        program_id: PROGRAM,
        user: USER,
        user_deposit_account_key: record_key(&USER),
        user_deposit_account: slot,
    }
}

fn balance(slot: Option<UserDepositAccount>) -> u64 {
    get_deposit(&GetDeposit { user_deposit_account: slot }).expect("record exists")
}

/// Runs a whole deposit as the host would: plan, transfer, commit.
fn run_deposit(ctx: &mut Deposit, amount: u64) -> Result<(), InstructionError> {
    let order = deposit(ctx, amount)?;
    assert_eq!(order.lamports, amount);
    assert_eq!(order.from, ctx.user);
    assert_eq!(order.to, ctx.user_deposit_account_key);
    complete_deposit(ctx, amount, Ok(()))
}

#[test]
fn initialize_deposit_and_read_back() {
    let mut init = init_ctx(None);
    assert!(initialize_user(&mut init).is_ok());
    assert_eq!(balance(init.user_deposit_account), 0);

    let mut ctx = deposit_ctx(init.user_deposit_account);
    assert!(run_deposit(&mut ctx, 100).is_ok());
    assert_eq!(balance(ctx.user_deposit_account), 100);
    assert!(run_deposit(&mut ctx, 50).is_ok());
    assert_eq!(balance(ctx.user_deposit_account), 150);

    let query = GetDeposit { user_deposit_account: ctx.user_deposit_account };
    assert_eq!(get_deposit(&query).unwrap(), 150);

    let refused = deposit(&ctx, 0);
    assert!(matches!(refused, Err(InstructionError::Program(ErrorCode::InvalidAmount))));
    assert_eq!(balance(ctx.user_deposit_account), 150);
}

#[test]
fn initialize_twice_is_a_no_op() {
    let mut init = init_ctx(None);
    assert!(initialize_user(&mut init).is_ok());
    assert_eq!(init.user_deposit_account, Some(UserDepositAccount { deposit_amount: 0 }));
    assert!(initialize_user(&mut init).is_ok());
    assert_eq!(init.user_deposit_account, Some(UserDepositAccount { deposit_amount: 0 }));
}

#[test]
fn initialize_keeps_an_existing_balance() {
    let mut init = init_ctx(Some(UserDepositAccount { deposit_amount: 42 }));
    assert!(initialize_user(&mut init).is_ok());
    assert_eq!(init.user_deposit_account, Some(UserDepositAccount { deposit_amount: 42 }));
}

#[test]
fn deposit_creates_a_missing_record() {
    let mut ctx = deposit_ctx(None);
    assert!(run_deposit(&mut ctx, 7).is_ok());
    assert_eq!(ctx.user_deposit_account, Some(UserDepositAccount { deposit_amount: 7 }));
}

#[test]
fn zero_deposit_changes_nothing() {
    let mut ctx = deposit_ctx(Some(UserDepositAccount { deposit_amount: 5 }));
    let r = complete_deposit(&mut ctx, 0, Ok(()));
    assert!(matches!(r, Err(InstructionError::Program(ErrorCode::InvalidAmount))));
    assert_eq!(ctx.user_deposit_account, Some(UserDepositAccount { deposit_amount: 5 }));

    let mut empty = deposit_ctx(None);
    let r = complete_deposit(&mut empty, 0, Ok(()));
    assert!(matches!(r, Err(InstructionError::Program(ErrorCode::InvalidAmount))));
    assert_eq!(empty.user_deposit_account, None);
}

#[test]
fn overflowing_deposit_is_refused_before_any_transfer() {
    let mut ctx = deposit_ctx(Some(UserDepositAccount { deposit_amount: u64::MAX - 10 }));
    assert!(matches!(
        deposit(&ctx, 11),
        Err(InstructionError::Program(ErrorCode::MathOverflow))
    ));
    let r = complete_deposit(&mut ctx, 11, Ok(()));
    assert!(matches!(r, Err(InstructionError::Program(ErrorCode::MathOverflow))));
    assert_eq!(balance(ctx.user_deposit_account), u64::MAX - 10);

    assert!(run_deposit(&mut ctx, 10).is_ok());
    assert_eq!(balance(ctx.user_deposit_account), u64::MAX);
}

#[test]
fn failed_transfer_leaves_the_record_unchanged() {
    let mut ctx = deposit_ctx(Some(UserDepositAccount { deposit_amount: 20 }));
    assert!(deposit(&ctx, 30).is_ok());
    let r = complete_deposit(&mut ctx, 30, Err(ProgramError::InsufficientFunds));
    assert!(matches!(
        r,
        Err(InstructionError::Transfer(ProgramError::InsufficientFunds))
    ));
    assert_eq!(ctx.user_deposit_account, Some(UserDepositAccount { deposit_amount: 20 }));

    let mut empty = deposit_ctx(None);
    let r = complete_deposit(&mut empty, 30, Err(ProgramError::InsufficientFunds));
    assert!(r.is_err());
    assert_eq!(empty.user_deposit_account, None);
}

#[test]
fn get_deposit_on_missing_record_fails() {
    let r = get_deposit(&GetDeposit { user_deposit_account: None });
    assert!(matches!(r, Err(InstructionError::AccountNotInitialized)));
}

#[test]
fn get_deposit_reports_the_stored_amount() {
    let query = GetDeposit { user_deposit_account: Some(UserDepositAccount { deposit_amount: 987 }) };
    assert_eq!(get_deposit(&query).unwrap(), 987);
    assert_eq!(query.user_deposit_account, Some(UserDepositAccount { deposit_amount: 987 }));
}

#[test]
fn slot_at_another_address_is_refused() {
    let other = record_key(&[4u8; 32]);
    let mut init = init_ctx(None);
    init.user_deposit_account_key = other;
    assert!(matches!(initialize_user(&mut init), Err(InstructionError::ConstraintSeeds)));
    assert_eq!(init.user_deposit_account, None);

    let mut ctx = deposit_ctx(Some(UserDepositAccount { deposit_amount: 1 }));
    ctx.user_deposit_account_key = other;
    assert!(matches!(deposit(&ctx, 5), Err(InstructionError::ConstraintSeeds)));
    assert!(matches!(
        complete_deposit(&mut ctx, 5, Ok(())),
        Err(InstructionError::ConstraintSeeds)
    ));
    assert_eq!(ctx.user_deposit_account, Some(UserDepositAccount { deposit_amount: 1 }));
}

#[test]
fn record_address_is_the_program_derived_address() {
    let program = Pubkey::new_from_array(PROGRAM);
    let (expected, bump) = Pubkey::find_program_address(&[b"user", USER.as_ref()], &program);
    let (key, got_bump) = user_deposit_address(&USER, &PROGRAM).unwrap();
    assert_eq!(key, expected.to_bytes());
    assert_eq!(got_bump, bump);
    assert_ne!(key, USER);
    assert_ne!(key, PROGRAM);
    assert!(check_record_address(&USER, &PROGRAM, &key));
    assert!(!check_record_address(&[4u8; 32], &PROGRAM, &key));
}

#[test]
fn record_address_is_stable_and_per_user() {
    assert_eq!(record_key(&USER), record_key(&USER));
    assert_ne!(record_key(&USER), record_key(&[4u8; 32]));
}

#[test]
fn same_address_compares_every_byte() {
    let a = [1u8; 32];
    let mut b = a;
    assert!(same_address(&a, &b));
    b[31] = 2;
    assert!(!same_address(&a, &b));
    b = a;
    b[0] = 0;
    assert!(!same_address(&a, &b));
}

#[test]
fn error_messages() {
    assert_eq!(
        ErrorCode::InvalidAmount.message(),
        "The deposited amount must be greater than zero."
    );
    assert_eq!(ErrorCode::MathOverflow.message(), "Math overflow occurred.");
}
