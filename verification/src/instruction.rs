use vstd::prelude::*;
use vstd::bytes::{
    lemma_auto_spec_u64_to_from_le_bytes, spec_u64_from_le_bytes, spec_u64_to_le_bytes,
    u64_from_le_bytes, u64_to_le_bytes,
};
use vstd::slice::slice_subrange;
use crate::errors::ExchangeError;

verus! {

broadcast use vstd::std_specs::control_flow::group_control_flow_axioms;

/// A typed operation, decoded from the raw instruction buffer.
///
/// Wire encoding (all integers little-endian): byte 0 is the tag, the rest is
/// the payload. Tag 0 is `Deposit`, tag 1 is `Withdraw`, both with an 8-byte
/// amount; tag 2 is `Initbet` with an 8-byte amount followed by 8-byte odds;
/// tag 3 is `Settle`, where the *last* byte of the payload is the outcome flag
/// (1 means the user won, anything else means the pool won).
#[derive(Debug, Clone, Copy, PartialEq, Eq, Structural)]
pub enum ExchangeInstruction {
    /// Move `amount` pool tokens from the user into the pool and mint receipt
    /// tokens in exchange.
    Deposit { amount: u64 },
    /// Burn receipt tokens and release `amount` pool tokens back to the user.
    Withdraw { amount: u64 },
    /// Put a wager under program control and match it from the pool.
    Initbet { amount: u64, odds: u64 },
    /// Resolve a bet by draining the escrow to the user or the pool.
    Settle { user_won: bool },
}

/// What a byte buffer decodes to: `None` exactly on the inputs that `unpack`
/// rejects with `InvalidEncoding`.
pub open spec fn spec_decode(input: Seq<u8>) -> Option<ExchangeInstruction> {
    if input.len() == 0 {
        None
    } else {
        let rest = input.skip(1);
        if input[0] == 0 {
            if rest.len() >= 8 {
                Some(ExchangeInstruction::Deposit { amount: spec_u64_from_le_bytes(rest.take(8)) })
            } else {
                None
            }
        } else if input[0] == 1 {
            if rest.len() >= 8 {
                Some(ExchangeInstruction::Withdraw { amount: spec_u64_from_le_bytes(rest.take(8)) })
            } else {
                None
            }
        } else if input[0] == 2 {
            if rest.len() >= 16 {
                Some(
                    ExchangeInstruction::Initbet {
                        amount: spec_u64_from_le_bytes(rest.take(8)),
                        odds: spec_u64_from_le_bytes(rest.subrange(8, 16)),
                    },
                )
            } else {
                None
            }
        } else if input[0] == 3 {
            if rest.len() >= 1 {
                Some(ExchangeInstruction::Settle { user_won: rest.last() == 1 })
            } else {
                None
            }
        } else {
            None
        }
    }
}

/// The canonical encoding of an operation: the shortest buffer that decodes
/// back to it.
pub open spec fn spec_encode(op: ExchangeInstruction) -> Seq<u8> {
    match op {
        ExchangeInstruction::Deposit { amount } => seq![0u8] + spec_u64_to_le_bytes(amount),
        ExchangeInstruction::Withdraw { amount } => seq![1u8] + spec_u64_to_le_bytes(amount),
        ExchangeInstruction::Initbet { amount, odds } => seq![2u8] + spec_u64_to_le_bytes(amount)
            + spec_u64_to_le_bytes(odds),
        ExchangeInstruction::Settle { user_won } => seq![
            3u8,
            if user_won {
                1u8
            } else {
                0u8
            },
        ],
    }
}

impl ExchangeInstruction {
    /// Decodes a raw byte buffer into a typed operation, rejecting every
    /// buffer the wire format does not cover.
    pub fn unpack(input: &[u8]) -> (r: Result<ExchangeInstruction, ExchangeError>)
        ensures
            match r {
                Ok(op) => spec_decode(input@) == Some(op),
                Err(e) => spec_decode(input@) is None && e == ExchangeError::InvalidEncoding,
            },
    {
        if input.len() == 0 {
            return Err(ExchangeError::InvalidEncoding);
        }
        let tag = input[0];
        let rest = slice_subrange(input, 1, input.len());
        proof {
            assert(rest@ =~= input@.skip(1));
        }
        match tag {
            0 => {
                let amount = Self::unpack_amount(rest)?;
                Ok(ExchangeInstruction::Deposit { amount })
            },
            1 => {
                let amount = Self::unpack_amount(rest)?;
                Ok(ExchangeInstruction::Withdraw { amount })
            },
            2 => {
                let amount = Self::unpack_amount(rest)?;
                let odds = Self::unpack_odds(rest)?;
                Ok(ExchangeInstruction::Initbet { amount, odds })
            },
            3 => {
                let user_won = Self::unpack_result(rest)?;
                Ok(ExchangeInstruction::Settle { user_won })
            },
            _ => Err(ExchangeError::InvalidEncoding),
        }
    }

    /// Reads the 8-byte little-endian amount at the start of the payload.
    pub fn unpack_amount(input: &[u8]) -> (r: Result<u64, ExchangeError>)
        ensures
            match r {
                Ok(amount) => input@.len() >= 8 && amount == spec_u64_from_le_bytes(
                    input@.take(8),
                ),
                Err(e) => input@.len() < 8 && e == ExchangeError::InvalidEncoding,
            },
    {
        if input.len() < 8 {
            return Err(ExchangeError::InvalidEncoding);
        }
        let window = slice_subrange(input, 0, 8);
        proof {
            assert(window@ =~= input@.take(8));
        }
        Ok(u64_from_le_bytes(window))
    }

    /// Reads the 8-byte little-endian odds at bytes 8..16 of the payload.
    pub fn unpack_odds(input: &[u8]) -> (r: Result<u64, ExchangeError>)
        ensures
            match r {
                Ok(odds) => input@.len() >= 16 && odds == spec_u64_from_le_bytes(
                    input@.subrange(8, 16),
                ),
                Err(e) => input@.len() < 16 && e == ExchangeError::InvalidEncoding,
            },
    {
        if input.len() < 16 {
            return Err(ExchangeError::InvalidEncoding);
        }
        let window = slice_subrange(input, 8, 16);
        Ok(u64_from_le_bytes(window))
    }

    /// Reads the outcome flag: the *last* byte of the payload, where only the
    /// value 1 counts as a user win. Trailing padding therefore changes the
    /// meaning; the wire format is kept as deployed.
    pub fn unpack_result(input: &[u8]) -> (r: Result<bool, ExchangeError>)
        ensures
            match r {
                Ok(user_won) => input@.len() >= 1 && user_won == (input@.last() == 1),
                Err(e) => input@.len() == 0 && e == ExchangeError::InvalidEncoding,
            },
    {
        if input.len() == 0 {
            return Err(ExchangeError::InvalidEncoding);
        }
        let flag = input[input.len() - 1];
        Ok(flag == 1)
    }

    /// Encodes the operation into its canonical wire form.
    pub fn pack(&self) -> (r: Vec<u8>)
        ensures
            r@ == spec_encode(*self),
    {
        match self {
            ExchangeInstruction::Deposit { amount } => {
                let mut buf: Vec<u8> = vec![0u8];
                let mut payload = u64_to_le_bytes(*amount);
                buf.append(&mut payload);
                proof {
                    assert(buf@ =~= spec_encode(*self));
                }
                buf
            },
            ExchangeInstruction::Withdraw { amount } => {
                let mut buf: Vec<u8> = vec![1u8];
                let mut payload = u64_to_le_bytes(*amount);
                buf.append(&mut payload);
                proof {
                    assert(buf@ =~= spec_encode(*self));
                }
                buf
            },
            ExchangeInstruction::Initbet { amount, odds } => {
                let mut buf: Vec<u8> = vec![2u8];
                let mut payload = u64_to_le_bytes(*amount);
                buf.append(&mut payload);
                let mut odds_payload = u64_to_le_bytes(*odds);
                buf.append(&mut odds_payload);
                proof {
                    assert(buf@ =~= spec_encode(*self));
                }
                buf
            },
            ExchangeInstruction::Settle { user_won } => {
                let flag: u8 = if *user_won {
                    1
                } else {
                    0
                };
                let buf: Vec<u8> = vec![3u8, flag];
                proof {
                    assert(buf@ =~= spec_encode(*self));
                }
                buf
            },
        }
    }
}

/// Decoding is left inverse to encoding: every operation survives a round
/// trip through its canonical wire form unchanged.
pub proof fn lemma_decode_encode(op: ExchangeInstruction)
    ensures
        spec_decode(spec_encode(op)) == Some(op),
{
    lemma_auto_spec_u64_to_from_le_bytes();
    let bytes = spec_encode(op);
    match op {
        ExchangeInstruction::Deposit { amount } => {
            assert(bytes.skip(1).take(8) =~= spec_u64_to_le_bytes(amount));
        },
        ExchangeInstruction::Withdraw { amount } => {
            assert(bytes.skip(1).take(8) =~= spec_u64_to_le_bytes(amount));
        },
        ExchangeInstruction::Initbet { amount, odds } => {
            assert(bytes.skip(1).take(8) =~= spec_u64_to_le_bytes(amount));
            assert(bytes.skip(1).subrange(8, 16) =~= spec_u64_to_le_bytes(odds));
        },
        ExchangeInstruction::Settle { user_won } => {
            assert(bytes.skip(1).last() == (if user_won {
                1u8
            } else {
                0u8
            }));
        },
    }
}

} // verus!
