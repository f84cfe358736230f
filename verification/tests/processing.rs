use divvy_exchange::authority::authority;
use divvy_exchange::custody::{AccountRef, CustodyOp};
use divvy_exchange::errors::ExchangeError;
use divvy_exchange::instruction::ExchangeInstruction;
use divvy_exchange::processor::Processor;

fn key(n: u8) -> [u8; 32] {
    [n; 32]
}

fn account(key: [u8; 32], is_signer: bool) -> AccountRef {
    AccountRef {
        key,
        is_signer,
        data: Vec::new(),
    }
}

/// A minimal initialized token-account record holding `balance`.
fn token_account_data(balance: u64) -> Vec<u8> {
    let mut data = vec![0u8; 165];
    data[64..72].copy_from_slice(&balance.to_le_bytes());
    data[108] = 1;
    data
}

/// Accounts for Deposit and Withdraw: [caller, mint, token service, receipt
/// account, program authority, user account, pool account].
fn liquidity_accounts() -> Vec<AccountRef> {
    vec![
        account(key(10), true),
        account(key(11), false),
        account(spl_token::id().to_bytes(), false),
        account(key(13), false),
        account(key(14), false),
        account(key(15), false),
        account(key(16), false),
    ]
}

/// Accounts for Initbet: [initializer, token service, escrow, program
/// authority, pool account].
fn initbet_accounts(initializer_signed: bool) -> Vec<AccountRef> {
    vec![
        account(key(10), initializer_signed),
        account(spl_token::id().to_bytes(), false),
        account(key(12), false),
        account(key(13), false),
        account(key(14), false),
    ]
}

/// Accounts for Settle: [initializer, token service, escrow, program
/// authority, pool account, user account].
fn settle_accounts(escrow_balance: u64) -> Vec<AccountRef> {
    let mut escrow = account(key(12), false);
    escrow.data = token_account_data(escrow_balance);
    vec![
        account(key(10), false),
        account(spl_token::id().to_bytes(), false),
        escrow,
        account(key(13), false),
        account(key(14), false),
        account(key(15), false),
    ]
}

fn transfer_data(amount: u64) -> Vec<u8> {
    let mut data = vec![3u8];
    data.extend_from_slice(&amount.to_le_bytes());
    data
}

#[test]
fn malformed_buffer_is_rejected_before_any_account_is_touched() {
    assert_eq!(
        Processor::process(&Vec::new(), &[]).unwrap_err(),
        ExchangeError::InvalidEncoding
    );
    assert_eq!(
        Processor::process(&Vec::new(), &[9, 1]).unwrap_err(),
        ExchangeError::InvalidEncoding
    );
}

#[test]
fn deposit_plans_transfer_then_scaled_mint() {
    let accounts = liquidity_accounts();
    let data = ExchangeInstruction::Deposit { amount: 3 }.pack();
    let plan = Processor::process(&accounts, &data).unwrap();
    assert_eq!(plan.len(), 2);

    assert_eq!(
        plan[0].op,
        CustodyOp::Transfer {
            source: 5,
            destination: 6,
            authority: 0,
            amount: 3
        }
    );
    assert!(!plan[0].program_signed);
    assert_eq!(plan[0].accounts, vec![5, 6, 0, 2]);

    assert_eq!(
        plan[1].op,
        CustodyOp::Mint {
            mint: 1,
            destination: 3,
            authority: 4,
            amount: 30_000_000
        }
    );
    assert!(plan[1].program_signed);
    assert_eq!(plan[1].accounts, vec![1, 3, 4]);

    // The built requests carry the same amounts on the wire.
    assert_eq!(plan[0].instruction.program_id, spl_token::id());
    assert_eq!(plan[0].instruction.data, transfer_data(3));
    let mut mint_data = vec![7u8];
    mint_data.extend_from_slice(&30_000_000u64.to_le_bytes());
    assert_eq!(plan[1].instruction.data, mint_data);
}

#[test]
fn deposit_with_short_account_list_fails() {
    let mut accounts = liquidity_accounts();
    accounts.pop();
    let data = ExchangeInstruction::Deposit { amount: 3 }.pack();
    assert_eq!(
        Processor::process(&accounts, &data).unwrap_err(),
        ExchangeError::MissingAccount
    );
}

#[test]
fn deposit_through_a_wrong_token_service_fails() {
    let mut accounts = liquidity_accounts();
    accounts[2] = account(key(99), false);
    let data = ExchangeInstruction::Deposit { amount: 3 }.pack();
    assert_eq!(
        Processor::process(&accounts, &data).unwrap_err(),
        ExchangeError::CustodyOperationFailed
    );
}

#[test]
fn withdraw_burns_scaled_receipts_before_release() {
    let accounts = liquidity_accounts();
    let data = ExchangeInstruction::Withdraw { amount: 3 }.pack();
    let plan = Processor::process(&accounts, &data).unwrap();
    assert_eq!(plan.len(), 2);

    // The burn stands first: a failed burn aborts before anything is released.
    assert_eq!(
        plan[0].op,
        CustodyOp::Burn {
            source: 3,
            mint: 1,
            authority: 0,
            amount: 30_000_000
        }
    );
    assert!(!plan[0].program_signed);
    assert_eq!(plan[0].accounts, vec![2, 3, 1, 0]);
    let mut burn_data = vec![8u8];
    burn_data.extend_from_slice(&30_000_000u64.to_le_bytes());
    assert_eq!(plan[0].instruction.data, burn_data);

    assert_eq!(
        plan[1].op,
        CustodyOp::Transfer {
            source: 6,
            destination: 5,
            authority: 4,
            amount: 3
        }
    );
    assert!(plan[1].program_signed);
    assert_eq!(plan[1].accounts, vec![6, 5, 4, 2]);
    assert_eq!(plan[1].instruction.data, transfer_data(3));
}

#[test]
fn initbet_without_signer_fails_and_plans_nothing() {
    let accounts = initbet_accounts(false);
    let data = ExchangeInstruction::Initbet { amount: 5, odds: 7 }.pack();
    assert_eq!(
        Processor::process(&accounts, &data).unwrap_err(),
        ExchangeError::MissingSignature
    );
}

#[test]
fn initbet_reassigns_escrow_then_stakes_the_pool() {
    let accounts = initbet_accounts(true);
    let data = ExchangeInstruction::Initbet { amount: 5, odds: 7 }.pack();
    let plan = Processor::process(&accounts, &data).unwrap();
    assert_eq!(plan.len(), 2);

    assert_eq!(
        plan[0].op,
        CustodyOp::ReassignOwner {
            account: 2,
            new_owner: 3,
            current_authority: 0
        }
    );
    assert!(!plan[0].program_signed);
    assert_eq!(plan[0].accounts, vec![2, 0, 1]);
    // Ownership-change request: kind 6, account-owner authority 2.
    assert_eq!(plan[0].instruction.data[0], 6);
    assert_eq!(plan[0].instruction.data[1], 2);

    assert_eq!(
        plan[1].op,
        CustodyOp::Transfer {
            source: 4,
            destination: 2,
            authority: 3,
            amount: 5
        }
    );
    assert!(plan[1].program_signed);
    assert_eq!(plan[1].accounts, vec![4, 2, 3, 1]);
    assert_eq!(plan[1].instruction.data, transfer_data(5));
}

#[test]
fn settle_user_win_drains_escrow_to_user() {
    let accounts = settle_accounts(42);
    let data = ExchangeInstruction::Settle { user_won: true }.pack();
    let plan = Processor::process(&accounts, &data).unwrap();
    assert_eq!(plan.len(), 1);
    assert_eq!(
        plan[0].op,
        CustodyOp::Transfer {
            source: 2,
            destination: 5,
            authority: 3,
            amount: 42
        }
    );
    assert!(plan[0].program_signed);
    assert_eq!(plan[0].accounts, vec![5, 2, 3, 1]);
    assert_eq!(plan[0].instruction.data, transfer_data(42));
}

#[test]
fn settle_user_loss_drains_escrow_to_pool() {
    let accounts = settle_accounts(42);
    let data = ExchangeInstruction::Settle { user_won: false }.pack();
    let plan = Processor::process(&accounts, &data).unwrap();
    assert_eq!(plan.len(), 1);
    assert_eq!(
        plan[0].op,
        CustodyOp::Transfer {
            source: 2,
            destination: 4,
            authority: 3,
            amount: 42
        }
    );
    assert!(plan[0].program_signed);
    assert_eq!(plan[0].accounts, vec![2, 4, 3, 1]);
}

#[test]
fn settle_of_a_drained_escrow_fails_instead_of_repeating() {
    // Settlement is one-shot: a second settlement finds the escrow's balance
    // already at zero and fails as insufficient, never silently succeeding.
    let accounts = settle_accounts(0);
    let data = ExchangeInstruction::Settle { user_won: true }.pack();
    assert_eq!(
        Processor::process(&accounts, &data).unwrap_err(),
        ExchangeError::CustodyOperationFailed
    );
    let data = ExchangeInstruction::Settle { user_won: false }.pack();
    assert_eq!(
        Processor::process(&accounts, &data).unwrap_err(),
        ExchangeError::CustodyOperationFailed
    );
}

#[test]
fn settle_with_malformed_escrow_record_fails() {
    let mut accounts = settle_accounts(42);
    accounts[2].data = vec![0u8; 10];
    let data = ExchangeInstruction::Settle { user_won: true }.pack();
    assert_eq!(
        Processor::process(&accounts, &data).unwrap_err(),
        ExchangeError::CustodyOperationFailed
    );
}

#[test]
fn settle_with_uninitialized_escrow_record_fails() {
    let mut accounts = settle_accounts(42);
    accounts[2].data[108] = 0;
    let data = ExchangeInstruction::Settle { user_won: true }.pack();
    assert_eq!(
        Processor::process(&accounts, &data).unwrap_err(),
        ExchangeError::CustodyOperationFailed
    );
}

#[test]
fn authority_seed_and_offset_are_fixed() {
    let (seed, bump) = authority();
    assert_eq!(seed, b"divvyexchange".to_vec());
    assert_eq!(bump, 254);
}

#[test]
fn deposit_at_the_receipt_scale_boundary_still_mints() {
    let accounts = liquidity_accounts();
    let amount = u64::MAX / divvy_exchange::RECEIPT_SCALE;
    let data = ExchangeInstruction::Deposit { amount }.pack();
    let plan = Processor::process(&accounts, &data).unwrap();
    assert_eq!(
        plan[1].op,
        CustodyOp::Mint {
            mint: 1,
            destination: 3,
            authority: 4,
            amount: amount * divvy_exchange::RECEIPT_SCALE
        }
    );
}
