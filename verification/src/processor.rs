use vstd::prelude::*;
use crate::RECEIPT_SCALE;
use crate::custody::{
    build_burn, build_mint_to, build_set_owner, build_transfer, burn_request, is_token_service_key,
    mint_request, plan_desc, read_token_balance, set_owner_request, spec_token_balance,
    spec_valid_token_account, transfer_request, AccountRef, CallSpec, CustodyOp, PlannedCall,
};
use crate::errors::ExchangeError;
use crate::instruction::{spec_decode, ExchangeInstruction};

verus! {

/// What a deposit of `amount` does, given the positional account list
/// [caller, mint, token service, receipt account, program authority, user
/// account, pool account]: a caller-signed transfer of `amount` pool tokens
/// from user to pool, then a program-signed mint of the scaled receipt
/// amount.
pub open spec fn spec_deposit_outcome(accounts: Seq<AccountRef>, amount: u64) -> Result<
    Seq<CallSpec>,
    ExchangeError,
> {
    if accounts.len() < 7 {
        Err(ExchangeError::MissingAccount)
    } else if !is_token_service_key(accounts[2].key@) {
        Err(ExchangeError::CustodyOperationFailed)
    } else {
        Ok(
            seq![
                CallSpec {
                    instruction: transfer_request(
                        accounts[2].key@,
                        accounts[5].key@,
                        accounts[6].key@,
                        accounts[0].key@,
                        amount,
                    ),
                    op: CustodyOp::Transfer { source: 5, destination: 6, authority: 0, amount },
                    program_signed: false,
                    accounts: seq![5usize, 6, 0, 2],
                },
                CallSpec {
                    instruction: mint_request(
                        accounts[2].key@,
                        accounts[1].key@,
                        accounts[3].key@,
                        accounts[4].key@,
                        (amount * RECEIPT_SCALE) as u64,
                    ),
                    op: CustodyOp::Mint {
                        mint: 1,
                        destination: 3,
                        authority: 4,
                        amount: (amount * RECEIPT_SCALE) as u64,
                    },
                    program_signed: true,
                    accounts: seq![1usize, 3, 4],
                },
            ],
        )
    }
}

/// What a withdraw of `amount` does, on the same account layout as a deposit:
/// first a caller-signed burn of the scaled receipt amount, only then a
/// program-signed release of `amount` pool tokens from pool to user, so that
/// no redeemable receipt survives the release.
pub open spec fn spec_withdraw_outcome(accounts: Seq<AccountRef>, amount: u64) -> Result<
    Seq<CallSpec>,
    ExchangeError,
> {
    if accounts.len() < 7 {
        Err(ExchangeError::MissingAccount)
    } else if !is_token_service_key(accounts[2].key@) {
        Err(ExchangeError::CustodyOperationFailed)
    } else {
        Ok(
            seq![
                CallSpec {
                    instruction: burn_request(
                        accounts[2].key@,
                        accounts[3].key@,
                        accounts[1].key@,
                        accounts[0].key@,
                        (amount * RECEIPT_SCALE) as u64,
                    ),
                    op: CustodyOp::Burn {
                        source: 3,
                        mint: 1,
                        authority: 0,
                        amount: (amount * RECEIPT_SCALE) as u64,
                    },
                    program_signed: false,
                    accounts: seq![2usize, 3, 1, 0],
                },
                CallSpec {
                    instruction: transfer_request(
                        accounts[2].key@,
                        accounts[6].key@,
                        accounts[5].key@,
                        accounts[4].key@,
                        amount,
                    ),
                    op: CustodyOp::Transfer { source: 6, destination: 5, authority: 4, amount },
                    program_signed: true,
                    accounts: seq![6usize, 5, 4, 2],
                },
            ],
        )
    }
}

/// What a bet initialization does, given [initializer, token service, escrow
/// account, program authority, pool account]: nothing without a verified
/// signature on the initializer; otherwise an initializer-signed ownership
/// change that puts the escrow under program control, then a program-signed
/// transfer of the pool's matching stake into it.
pub open spec fn spec_initbet_outcome(accounts: Seq<AccountRef>, amount: u64) -> Result<
    Seq<CallSpec>,
    ExchangeError,
> {
    if accounts.len() < 1 {
        Err(ExchangeError::MissingAccount)
    } else if !accounts[0].is_signer {
        Err(ExchangeError::MissingSignature)
    } else if accounts.len() < 5 {
        Err(ExchangeError::MissingAccount)
    } else if !is_token_service_key(accounts[1].key@) {
        Err(ExchangeError::CustodyOperationFailed)
    } else {
        Ok(
            seq![
                CallSpec {
                    instruction: set_owner_request(
                        accounts[1].key@,
                        accounts[2].key@,
                        accounts[3].key@,
                        accounts[0].key@,
                    ),
                    op: CustodyOp::ReassignOwner { account: 2, new_owner: 3, current_authority: 0 },
                    program_signed: false,
                    accounts: seq![2usize, 0, 1],
                },
                CallSpec {
                    instruction: transfer_request(
                        accounts[1].key@,
                        accounts[4].key@,
                        accounts[2].key@,
                        accounts[3].key@,
                        amount,
                    ),
                    op: CustodyOp::Transfer { source: 4, destination: 2, authority: 3, amount },
                    program_signed: true,
                    accounts: seq![4usize, 2, 3, 1],
                },
            ],
        )
    }
}

/// What a settlement does, given [initializer, token service, escrow account,
/// program authority, pool account, user account]: one program-signed
/// transfer that drains the escrow's entire recorded balance, to the user
/// when the user won and to the pool otherwise. An escrow whose recorded
/// balance is already zero — a bet an earlier settlement drained — is
/// rejected as a failed custody operation: settlement is one-shot, never
/// silently repeatable.
pub open spec fn spec_settle_outcome(accounts: Seq<AccountRef>, user_won: bool) -> Result<
    Seq<CallSpec>,
    ExchangeError,
> {
    if accounts.len() < 6 {
        Err(ExchangeError::MissingAccount)
    } else if !spec_valid_token_account(accounts[2].data@) {
        Err(ExchangeError::CustodyOperationFailed)
    } else if spec_token_balance(accounts[2].data@) == 0 {
        Err(ExchangeError::CustodyOperationFailed)
    } else if !is_token_service_key(accounts[1].key@) {
        Err(ExchangeError::CustodyOperationFailed)
    } else {
        let balance = spec_token_balance(accounts[2].data@);
        if user_won {
            Ok(
                seq![
                    CallSpec {
                        instruction: transfer_request(
                            accounts[1].key@,
                            accounts[2].key@,
                            accounts[5].key@,
                            accounts[3].key@,
                            balance,
                        ),
                        op: CustodyOp::Transfer {
                            source: 2,
                            destination: 5,
                            authority: 3,
                            amount: balance,
                        },
                        program_signed: true,
                        accounts: seq![5usize, 2, 3, 1],
                    },
                ],
            )
        } else {
            Ok(
                seq![
                    CallSpec {
                        instruction: transfer_request(
                            accounts[1].key@,
                            accounts[2].key@,
                            accounts[4].key@,
                            accounts[3].key@,
                            balance,
                        ),
                        op: CustodyOp::Transfer {
                            source: 2,
                            destination: 4,
                            authority: 3,
                            amount: balance,
                        },
                        program_signed: true,
                        accounts: seq![2usize, 4, 3, 1],
                    },
                ],
            )
        }
    }
}

/// The whole state machine as one function: what an invocation with the given
/// account list and instruction buffer either plans or rejects.
pub open spec fn spec_outcome(accounts: Seq<AccountRef>, input: Seq<u8>) -> Result<
    Seq<CallSpec>,
    ExchangeError,
> {
    match spec_decode(input) {
        None => Err(ExchangeError::InvalidEncoding),
        Some(op) => match op {
            ExchangeInstruction::Deposit { amount } => spec_deposit_outcome(accounts, amount),
            ExchangeInstruction::Withdraw { amount } => spec_withdraw_outcome(accounts, amount),
            ExchangeInstruction::Initbet { amount, odds: _ } => spec_initbet_outcome(
                accounts,
                amount,
            ),
            ExchangeInstruction::Settle { user_won } => spec_settle_outcome(accounts, user_won),
        },
    }
}

/// Whether scaling the decoded amount into receipt units stays within a
/// 64-bit quantity; deposits and withdraws whose scaled amount would not fit
/// are outside the exchange's domain.
pub open spec fn no_scale_overflow(op: Option<ExchangeInstruction>) -> bool {
    match op {
        Some(ExchangeInstruction::Deposit { amount }) => amount * RECEIPT_SCALE <= u64::MAX,
        Some(ExchangeInstruction::Withdraw { amount }) => amount * RECEIPT_SCALE <= u64::MAX,
        _ => true,
    }
}

/// The instruction processor: a fresh, stateless state-machine run per
/// invocation.
pub struct Processor;

impl Processor {
    /// Decodes the instruction buffer, binds the operation to its positional
    /// accounts, enforces the signer precondition, and plans the atomic
    /// sequence of custody calls that realizes the operation. On any error no
    /// plan exists, so no token movement is requested at all.
    pub fn process(accounts: &Vec<AccountRef>, instruction_data: &[u8]) -> (r: Result<
        Vec<PlannedCall>,
        ExchangeError,
    >)
        requires
            no_scale_overflow(spec_decode(instruction_data@)),
        ensures
            match r {
                Ok(plan) => spec_outcome(accounts@, instruction_data@) matches Ok(calls)
                    && plan_desc(plan@) =~~= calls,
                Err(e) => spec_outcome(accounts@, instruction_data@) matches Err(e2) && e == e2,
            },
    {
        let op = match ExchangeInstruction::unpack(instruction_data) {
            Ok(op) => op,
            Err(e) => {
                return Err(e);
            },
        };
        match op {
            ExchangeInstruction::Deposit { amount } => Self::process_deposit(accounts, amount),
            ExchangeInstruction::Withdraw { amount } => Self::process_withdraw(accounts, amount),
            ExchangeInstruction::Initbet { amount, odds: _ } => Self::process_initbet(
                accounts,
                amount,
            ),
            ExchangeInstruction::Settle { user_won } => Self::process_settle(accounts, user_won),
        }
    }

    fn process_deposit(accounts: &Vec<AccountRef>, amount: u64) -> (r: Result<
        Vec<PlannedCall>,
        ExchangeError,
    >)
        requires
            amount * RECEIPT_SCALE <= u64::MAX,
        ensures
            match r {
                Ok(plan) => spec_deposit_outcome(accounts@, amount) matches Ok(calls) && plan_desc(
                    plan@,
                ) =~~= calls,
                Err(e) => spec_deposit_outcome(accounts@, amount) matches Err(e2) && e == e2,
            },
    {
        if accounts.len() < 7 {
            return Err(ExchangeError::MissingAccount);
        }
        let transfer_ix = match build_transfer(
            &accounts[2].key,
            &accounts[5].key,
            &accounts[6].key,
            &accounts[0].key,
            amount,
        ) {
            Ok(ix) => ix,
            Err(_) => {
                return Err(ExchangeError::CustodyOperationFailed);
            },
        };
        let scaled = amount * RECEIPT_SCALE;
        let mint_ix = match build_mint_to(
            &accounts[2].key,
            &accounts[1].key,
            &accounts[3].key,
            &accounts[4].key,
            scaled,
        ) {
            Ok(ix) => ix,
            Err(_) => {
                return Err(ExchangeError::CustodyOperationFailed);
            },
        };
        let transfer_accounts: Vec<usize> = vec![5, 6, 0, 2];
        let mint_accounts: Vec<usize> = vec![1, 3, 4];
        let mut plan: Vec<PlannedCall> = Vec::new();
        plan.push(
            PlannedCall {
                instruction: transfer_ix,
                accounts: transfer_accounts,
                program_signed: false,
                op: CustodyOp::Transfer { source: 5, destination: 6, authority: 0, amount },
            },
        );
        plan.push(
            PlannedCall {
                instruction: mint_ix,
                accounts: mint_accounts,
                program_signed: true,
                op: CustodyOp::Mint { mint: 1, destination: 3, authority: 4, amount: scaled },
            },
        );
        proof {
            assert(plan_desc(plan@) =~~= spec_deposit_outcome(accounts@, amount)->Ok_0);
        }
        Ok(plan)
    }

    fn process_withdraw(accounts: &Vec<AccountRef>, amount: u64) -> (r: Result<
        Vec<PlannedCall>,
        ExchangeError,
    >)
        requires
            amount * RECEIPT_SCALE <= u64::MAX,
        ensures
            match r {
                Ok(plan) => spec_withdraw_outcome(accounts@, amount) matches Ok(calls) && plan_desc(
                    plan@,
                ) =~~= calls,
                Err(e) => spec_withdraw_outcome(accounts@, amount) matches Err(e2) && e == e2,
            },
    {
        if accounts.len() < 7 {
            return Err(ExchangeError::MissingAccount);
        }
        let scaled = amount * RECEIPT_SCALE;
        let burn_ix = match build_burn(
            &accounts[2].key,
            &accounts[3].key,
            &accounts[1].key,
            &accounts[0].key,
            scaled,
        ) {
            Ok(ix) => ix,
            Err(_) => {
                return Err(ExchangeError::CustodyOperationFailed);
            },
        };
        let transfer_ix = match build_transfer(
            &accounts[2].key,
            &accounts[6].key,
            &accounts[5].key,
            &accounts[4].key,
            amount,
        ) {
            Ok(ix) => ix,
            Err(_) => {
                return Err(ExchangeError::CustodyOperationFailed);
            },
        };
        let burn_accounts: Vec<usize> = vec![2, 3, 1, 0];
        let transfer_accounts: Vec<usize> = vec![6, 5, 4, 2];
        let mut plan: Vec<PlannedCall> = Vec::new();
        plan.push(
            PlannedCall {
                instruction: burn_ix,
                accounts: burn_accounts,
                program_signed: false,
                op: CustodyOp::Burn { source: 3, mint: 1, authority: 0, amount: scaled },
            },
        );
        plan.push(
            PlannedCall {
                instruction: transfer_ix,
                accounts: transfer_accounts,
                program_signed: true,
                op: CustodyOp::Transfer { source: 6, destination: 5, authority: 4, amount },
            },
        );
        proof {
            assert(plan_desc(plan@) =~~= spec_withdraw_outcome(accounts@, amount)->Ok_0);
        }
        Ok(plan)
    }

    fn process_initbet(accounts: &Vec<AccountRef>, amount: u64) -> (r: Result<
        Vec<PlannedCall>,
        ExchangeError,
    >)
        ensures
            match r {
                Ok(plan) => spec_initbet_outcome(accounts@, amount) matches Ok(calls) && plan_desc(
                    plan@,
                ) =~~= calls,
                Err(e) => spec_initbet_outcome(accounts@, amount) matches Err(e2) && e == e2,
            },
    {
        if accounts.len() < 1 {
            return Err(ExchangeError::MissingAccount);
        }
        if !accounts[0].is_signer {
            return Err(ExchangeError::MissingSignature);
        }
        if accounts.len() < 5 {
            return Err(ExchangeError::MissingAccount);
        }
        let owner_change_ix = match build_set_owner(
            &accounts[1].key,
            &accounts[2].key,
            &accounts[3].key,
            &accounts[0].key,
        ) {
            Ok(ix) => ix,
            Err(_) => {
                return Err(ExchangeError::CustodyOperationFailed);
            },
        };
        let transfer_ix = match build_transfer(
            &accounts[1].key,
            &accounts[4].key,
            &accounts[2].key,
            &accounts[3].key,
            amount,
        ) {
            Ok(ix) => ix,
            Err(_) => {
                return Err(ExchangeError::CustodyOperationFailed);
            },
        };
        let owner_change_accounts: Vec<usize> = vec![2, 0, 1];
        let transfer_accounts: Vec<usize> = vec![4, 2, 3, 1];
        let mut plan: Vec<PlannedCall> = Vec::new();
        plan.push(
            PlannedCall {
                instruction: owner_change_ix,
                accounts: owner_change_accounts,
                program_signed: false,
                op: CustodyOp::ReassignOwner { account: 2, new_owner: 3, current_authority: 0 },
            },
        );
        plan.push(
            PlannedCall {
                instruction: transfer_ix,
                accounts: transfer_accounts,
                program_signed: true,
                op: CustodyOp::Transfer { source: 4, destination: 2, authority: 3, amount },
            },
        );
        proof {
            assert(plan_desc(plan@) =~~= spec_initbet_outcome(accounts@, amount)->Ok_0);
        }
        Ok(plan)
    }

    fn process_settle(accounts: &Vec<AccountRef>, user_won: bool) -> (r: Result<
        Vec<PlannedCall>,
        ExchangeError,
    >)
        ensures
            match r {
                Ok(plan) => spec_settle_outcome(accounts@, user_won) matches Ok(calls) && plan_desc(
                    plan@,
                ) =~~= calls,
                Err(e) => spec_settle_outcome(accounts@, user_won) matches Err(e2) && e == e2,
            },
    {
        if accounts.len() < 6 {
            return Err(ExchangeError::MissingAccount);
        }
        let balance = match read_token_balance(&accounts[2].data) {
            Ok(balance) => balance,
            Err(_) => {
                return Err(ExchangeError::CustodyOperationFailed);
            },
        };
        if balance == 0 {
            return Err(ExchangeError::CustodyOperationFailed);
        }
        if user_won {
            let transfer_ix = match build_transfer(
                &accounts[1].key,
                &accounts[2].key,
                &accounts[5].key,
                &accounts[3].key,
                balance,
            ) {
                Ok(ix) => ix,
                Err(_) => {
                    return Err(ExchangeError::CustodyOperationFailed);
                },
            };
            let transfer_accounts: Vec<usize> = vec![5, 2, 3, 1];
            let mut plan: Vec<PlannedCall> = Vec::new();
            plan.push(
                PlannedCall {
                    instruction: transfer_ix,
                    accounts: transfer_accounts,
                    program_signed: true,
                    op: CustodyOp::Transfer {
                        source: 2,
                        destination: 5,
                        authority: 3,
                        amount: balance,
                    },
                },
            );
            proof {
                assert(plan_desc(plan@) =~~= spec_settle_outcome(accounts@, user_won)->Ok_0);
            }
            Ok(plan)
        } else {
            let transfer_ix = match build_transfer(
                &accounts[1].key,
                &accounts[2].key,
                &accounts[4].key,
                &accounts[3].key,
                balance,
            ) {
                Ok(ix) => ix,
                Err(_) => {
                    return Err(ExchangeError::CustodyOperationFailed);
                },
            };
            let transfer_accounts: Vec<usize> = vec![2, 4, 3, 1];
            let mut plan: Vec<PlannedCall> = Vec::new();
            plan.push(
                PlannedCall {
                    instruction: transfer_ix,
                    accounts: transfer_accounts,
                    program_signed: true,
                    op: CustodyOp::Transfer {
                        source: 2,
                        destination: 4,
                        authority: 3,
                        amount: balance,
                    },
                },
            );
            proof {
                assert(plan_desc(plan@) =~~= spec_settle_outcome(accounts@, user_won)->Ok_0);
            }
            Ok(plan)
        }
    }
}

/// A deposit plans exactly two custody calls, in order: a caller-signed
/// transfer of `amount` pool tokens from the user account to the pool
/// account, then a program-signed mint of `amount * RECEIPT_SCALE` receipt
/// tokens into the caller's receipt account. Both stand in one plan, so the
/// host applies both or neither.
pub proof fn lemma_deposit_mints_scaled_receipts(
    accounts: Seq<AccountRef>,
    input: Seq<u8>,
    amount: u64,
)
    requires
        spec_decode(input) == Some(ExchangeInstruction::Deposit { amount }),
        amount * RECEIPT_SCALE <= u64::MAX,
        accounts.len() >= 7,
        is_token_service_key(accounts[2].key@),
    ensures
        ({
            let calls = spec_outcome(accounts, input)->Ok_0;
            &&& spec_outcome(accounts, input) is Ok
            &&& calls.len() == 2
            &&& calls[0].op == (CustodyOp::Transfer {
                source: 5,
                destination: 6,
                authority: 0,
                amount,
            })
            &&& !calls[0].program_signed
            &&& calls[1].op == (CustodyOp::Mint {
                mint: 1,
                destination: 3,
                authority: 4,
                amount: (amount * RECEIPT_SCALE) as u64,
            })
            &&& calls[1].program_signed
        }),
{
}

/// A withdraw burns before it releases: the caller-signed burn of
/// `amount * RECEIPT_SCALE` receipt tokens stands first in the plan, and the
/// program-signed release of `amount` pool tokens to the user second, so a
/// failed burn leaves nothing released.
pub proof fn lemma_withdraw_burns_before_release(
    accounts: Seq<AccountRef>,
    input: Seq<u8>,
    amount: u64,
)
    requires
        spec_decode(input) == Some(ExchangeInstruction::Withdraw { amount }),
        amount * RECEIPT_SCALE <= u64::MAX,
        accounts.len() >= 7,
        is_token_service_key(accounts[2].key@),
    ensures
        ({
            let calls = spec_outcome(accounts, input)->Ok_0;
            &&& spec_outcome(accounts, input) is Ok
            &&& calls.len() == 2
            &&& calls[0].op == (CustodyOp::Burn {
                source: 3,
                mint: 1,
                authority: 0,
                amount: (amount * RECEIPT_SCALE) as u64,
            })
            &&& !calls[0].program_signed
            &&& calls[1].op == (CustodyOp::Transfer {
                source: 6,
                destination: 5,
                authority: 4,
                amount,
            })
            &&& calls[1].program_signed
        }),
{
}

/// A bet initialization whose initializer the host did not verify as a signer
/// is rejected with `MissingSignature`, and no custody call is planned at
/// all.
pub proof fn lemma_initbet_requires_signer(accounts: Seq<AccountRef>, input: Seq<u8>)
    requires
        spec_decode(input) matches Some(op) && op is Initbet,
        accounts.len() >= 1,
        !accounts[0].is_signer,
    ensures
        spec_outcome(accounts, input) == Err::<Seq<CallSpec>, ExchangeError>(
            ExchangeError::MissingSignature,
        ),
{
}

/// A settlement of an escrow that still holds funds plans exactly one
/// program-signed transfer that drains the escrow's entire recorded balance:
/// to the user account when the user won, to the pool account otherwise.
pub proof fn lemma_settle_drains_escrow(accounts: Seq<AccountRef>, input: Seq<u8>, user_won: bool)
    requires
        spec_decode(input) == Some(ExchangeInstruction::Settle { user_won }),
        accounts.len() >= 6,
        spec_valid_token_account(accounts[2].data@),
        spec_token_balance(accounts[2].data@) != 0,
        is_token_service_key(accounts[1].key@),
    ensures
        ({
            let calls = spec_outcome(accounts, input)->Ok_0;
            &&& spec_outcome(accounts, input) is Ok
            &&& calls.len() == 1
            &&& calls[0].op == (CustodyOp::Transfer {
                source: 2,
                destination: if user_won {
                    5
                } else {
                    4
                },
                authority: 3,
                amount: spec_token_balance(accounts[2].data@),
            })
            &&& calls[0].program_signed
        }),
{
}

/// Settlement is not idempotent: against an escrow whose recorded balance an
/// earlier settlement already drained, it fails with
/// `CustodyOperationFailed`, and no custody call is planned at all.
pub proof fn lemma_settle_rejects_drained_escrow(
    accounts: Seq<AccountRef>,
    input: Seq<u8>,
    user_won: bool,
)
    requires
        spec_decode(input) == Some(ExchangeInstruction::Settle { user_won }),
        accounts.len() >= 6,
        spec_valid_token_account(accounts[2].data@),
        spec_token_balance(accounts[2].data@) == 0,
    ensures
        spec_outcome(accounts, input) == Err::<Seq<CallSpec>, ExchangeError>(
            ExchangeError::CustodyOperationFailed,
        ),
{
}

} // verus!

