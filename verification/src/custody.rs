use vstd::prelude::*;
use vstd::bytes::spec_u64_from_le_bytes;
use solana_instruction::Instruction;
use solana_program_error::ProgramError;
use solana_pubkey::Pubkey;
use spl_token::solana_program::program_pack::Pack;

verus! {

#[verifier::external_type_specification]
#[verifier::external_body]
pub struct ExInstruction(Instruction);

#[verifier::external_type_specification]
#[verifier::external_body]
pub struct ExProgramError(ProgramError);

/// One account of the invocation's positional list, reduced to the plain
/// values the processor reads: the 32-byte address, whether the execution
/// host verified its signature, and the raw bytes of its token-account
/// record.
pub struct AccountRef {
    /// The account's 32-byte address.
    pub key: [u8; 32],
    /// True when the execution host verified an external signature for this
    /// account.
    pub is_signer: bool,
    /// The account's record bytes, as stored by the token service.
    pub data: Vec<u8>,
}

/// A primitive token-custody request, described over positions in the
/// invocation's account list. Every fund movement of the exchange is one of
/// these four.
#[derive(Debug, Clone, Copy, PartialEq, Eq, Structural)]
pub enum CustodyOp {
    /// Move `amount` tokens from `source` to `destination`.
    Transfer { source: usize, destination: usize, authority: usize, amount: u64 },
    /// Increase supply: mint `amount` new tokens of `mint` into `destination`.
    Mint { mint: usize, destination: usize, authority: usize, amount: u64 },
    /// Decrease supply: burn `amount` tokens of `mint` out of `source`.
    Burn { source: usize, mint: usize, authority: usize, amount: u64 },
    /// Hand control of `account` from `current_authority` to `new_owner`.
    ReassignOwner { account: usize, new_owner: usize, current_authority: usize },
}

/// One step of an invocation's plan: the token-service request ready to hand
/// to the execution host, together with its plain-value description.
#[derive(Debug)]
pub struct PlannedCall {
    /// The request, built by the token crate.
    pub instruction: Instruction,
    /// Positions, in the invocation's account list, of the accounts handed to
    /// the execution host together with the request.
    pub accounts: Vec<usize>,
    /// True when the call is signed with the program authority's seeds; false
    /// when an external signer in the account list authorizes it.
    pub program_signed: bool,
    /// What the request does.
    pub op: CustodyOp,
}

/// The specification-level image of a planned call, the opaque request value
/// included.
#[verifier::ext_equal]
pub struct CallSpec {
    pub instruction: Instruction,
    pub op: CustodyOp,
    pub program_signed: bool,
    pub accounts: Seq<usize>,
}

/// The specification-level image of a whole plan.
pub open spec fn call_desc(p: PlannedCall) -> CallSpec {
    CallSpec {
        instruction: p.instruction,
        op: p.op,
        program_signed: p.program_signed,
        accounts: p.accounts@,
    }
}

/// The plain-value description of a sequence of planned calls.
pub open spec fn plan_desc(plan: Seq<PlannedCall>) -> Seq<CallSpec> {
    plan.map_values(|p: PlannedCall| call_desc(p))
}

/// Whether a 32-byte address is the token service's own program id; what
/// `spl_token::check_program_account` accepts.
pub uninterp spec fn is_token_service_key(key: Seq<u8>) -> bool;

/// The request value `spl_token::instruction::transfer` builds for the given
/// token-program, source, destination and authority addresses and amount.
pub uninterp spec fn transfer_request(
    token_program: Seq<u8>,
    source: Seq<u8>,
    destination: Seq<u8>,
    authority: Seq<u8>,
    amount: u64,
) -> Instruction;

/// The request value `spl_token::instruction::mint_to` builds for the given
/// token-program, mint, destination and authority addresses and amount.
pub uninterp spec fn mint_request(
    token_program: Seq<u8>,
    mint: Seq<u8>,
    destination: Seq<u8>,
    authority: Seq<u8>,
    amount: u64,
) -> Instruction;

/// The request value `spl_token::instruction::burn` builds for the given
/// token-program, source, mint and authority addresses and amount.
pub uninterp spec fn burn_request(
    token_program: Seq<u8>,
    source: Seq<u8>,
    mint: Seq<u8>,
    authority: Seq<u8>,
    amount: u64,
) -> Instruction;

/// The request value `spl_token::instruction::set_authority` builds, with the
/// account-owner authority kind, for the given token-program, owned account,
/// new owner and current authority addresses.
pub uninterp spec fn set_owner_request(
    token_program: Seq<u8>,
    owned: Seq<u8>,
    new_owner: Seq<u8>,
    current_authority: Seq<u8>,
) -> Instruction;

/// A four-byte optional-value tag of a token-account record: all zero for
/// absent, or one followed by three zeroes for present.
pub open spec fn spec_coption_tag_valid(data: Seq<u8>, at: int) -> bool {
    &&& (data[at] == 0 || data[at] == 1)
    &&& data[at + 1] == 0
    &&& data[at + 2] == 0
    &&& data[at + 3] == 0
}

/// The token-account records the token service accepts: exactly 165 bytes,
/// with valid optional-value tags for the delegate (offset 72), native marker
/// (offset 109) and close authority (offset 129), and an initialized state
/// byte (offset 108) that is 1 (initialized) or 2 (frozen).
pub open spec fn spec_valid_token_account(data: Seq<u8>) -> bool {
    &&& data.len() == 165
    &&& spec_coption_tag_valid(data, 72)
    &&& (data[108] == 1 || data[108] == 2)
    &&& spec_coption_tag_valid(data, 109)
    &&& spec_coption_tag_valid(data, 129)
}

/// The balance a token-account record holds: little-endian at bytes 64..72.
pub open spec fn spec_token_balance(data: Seq<u8>) -> u64 {
    spec_u64_from_le_bytes(data.subrange(64, 72))
}

/// Relies on `spl_token::instruction::transfer`: it returns the transfer
/// request for exactly the given source, destination, authority and amount,
/// and fails exactly when `spl_token::check_program_account` rejects the
/// token-program key.
#[verifier::external_body]
pub(crate) fn build_transfer(
    token_program: &[u8; 32],
    source: &[u8; 32],
    destination: &[u8; 32],
    authority: &[u8; 32],
    amount: u64,
) -> (r: Result<Instruction, ProgramError>)
    ensures
        r is Ok <==> is_token_service_key(token_program@),
        r matches Ok(ix) ==> ix == transfer_request(
            token_program@,
            source@,
            destination@,
            authority@,
            amount,
        ),
{
    let authority_key = Pubkey::new_from_array(*authority);
    spl_token::instruction::transfer(
        &Pubkey::new_from_array(*token_program),
        &Pubkey::new_from_array(*source),
        &Pubkey::new_from_array(*destination),
        &authority_key,
        &[&authority_key],
        amount,
    )
}

/// Relies on `spl_token::instruction::mint_to`: it returns the mint request
/// for exactly the given mint, destination, authority and amount, and fails
/// exactly when `spl_token::check_program_account` rejects the token-program
/// key.
#[verifier::external_body]
pub(crate) fn build_mint_to(
    token_program: &[u8; 32],
    mint: &[u8; 32],
    destination: &[u8; 32],
    authority: &[u8; 32],
    amount: u64,
) -> (r: Result<Instruction, ProgramError>)
    ensures
        r is Ok <==> is_token_service_key(token_program@),
        r matches Ok(ix) ==> ix == mint_request(
            token_program@,
            mint@,
            destination@,
            authority@,
            amount,
        ),
{
    let authority_key = Pubkey::new_from_array(*authority);
    spl_token::instruction::mint_to(
        &Pubkey::new_from_array(*token_program),
        &Pubkey::new_from_array(*mint),
        &Pubkey::new_from_array(*destination),
        &authority_key,
        &[&authority_key],
        amount,
    )
}

/// Relies on `spl_token::instruction::burn`: it returns the burn request for
/// exactly the given source, mint, authority and amount, and fails exactly
/// when `spl_token::check_program_account` rejects the token-program key.
#[verifier::external_body]
pub(crate) fn build_burn(
    token_program: &[u8; 32],
    source: &[u8; 32],
    mint: &[u8; 32],
    authority: &[u8; 32],
    amount: u64,
) -> (r: Result<Instruction, ProgramError>)
    ensures
        r is Ok <==> is_token_service_key(token_program@),
        r matches Ok(ix) ==> ix == burn_request(token_program@, source@, mint@, authority@, amount),
{
    let authority_key = Pubkey::new_from_array(*authority);
    spl_token::instruction::burn(
        &Pubkey::new_from_array(*token_program),
        &Pubkey::new_from_array(*source),
        &Pubkey::new_from_array(*mint),
        &authority_key,
        &[&authority_key],
        amount,
    )
}

/// Relies on `spl_token::instruction::set_authority` with the account-owner
/// authority kind: it returns the ownership-change request for exactly the
/// given account, new owner and current authority, and fails exactly when
/// `spl_token::check_program_account` rejects the token-program key.
#[verifier::external_body]
pub(crate) fn build_set_owner(
    token_program: &[u8; 32],
    owned: &[u8; 32],
    new_owner: &[u8; 32],
    current_authority: &[u8; 32],
) -> (r: Result<Instruction, ProgramError>)
    ensures
        r is Ok <==> is_token_service_key(token_program@),
        r matches Ok(ix) ==> ix == set_owner_request(
            token_program@,
            owned@,
            new_owner@,
            current_authority@,
        ),
{
    let current = Pubkey::new_from_array(*current_authority);
    spl_token::instruction::set_authority(
        &Pubkey::new_from_array(*token_program),
        &Pubkey::new_from_array(*owned),
        Some(&Pubkey::new_from_array(*new_owner)),
        spl_token::instruction::AuthorityType::AccountOwner,
        &current,
        &[&current],
    )
}

/// Relies on `spl_token::state::Account::unpack`: it parses a 165-byte token
/// account record, returns its balance (little-endian at bytes 64..72), and
/// fails exactly on records that `spec_valid_token_account` rejects.
#[verifier::external_body]
pub(crate) fn read_token_balance(data: &Vec<u8>) -> (r: Result<u64, ProgramError>)
    ensures
        r is Ok <==> spec_valid_token_account(data@),
        r matches Ok(balance) ==> balance == spec_token_balance(data@),
{
    spl_token::state::Account::unpack(data.as_slice()).map(|account| account.amount)
}

} // verus!
