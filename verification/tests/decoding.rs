use divvy_exchange::errors::ExchangeError;
use divvy_exchange::instruction::ExchangeInstruction;

fn le(value: u64) -> Vec<u8> {
    value.to_le_bytes().to_vec()
}

#[test]
fn decode_empty_buffer_fails() {
    assert_eq!(
        ExchangeInstruction::unpack(&[]),
        Err(ExchangeError::InvalidEncoding)
    );
}

#[test]
fn decode_deposit_without_amount_fails() {
    assert_eq!(
        ExchangeInstruction::unpack(&[0]),
        Err(ExchangeError::InvalidEncoding)
    );
    assert_eq!(
        ExchangeInstruction::unpack(&[0, 1, 2, 3, 4, 5, 6, 7]),
        Err(ExchangeError::InvalidEncoding)
    );
}

#[test]
fn decode_deposit_reads_little_endian_amount() {
    assert_eq!(
        ExchangeInstruction::unpack(&[0, 1, 2, 3, 4, 5, 6, 7, 8]),
        Ok(ExchangeInstruction::Deposit {
            amount: 0x0807060504030201
        })
    );
}

#[test]
fn decode_deposit_ignores_trailing_bytes() {
    let mut buffer = vec![0u8];
    buffer.extend_from_slice(&le(9));
    buffer.push(255);
    assert_eq!(
        ExchangeInstruction::unpack(&buffer),
        Ok(ExchangeInstruction::Deposit { amount: 9 })
    );
}

#[test]
fn decode_withdraw_reads_little_endian_amount() {
    let mut buffer = vec![1u8];
    buffer.extend_from_slice(&le(5));
    assert_eq!(
        ExchangeInstruction::unpack(&buffer),
        Ok(ExchangeInstruction::Withdraw { amount: 5 })
    );
}

#[test]
fn decode_initbet_reads_amount_and_odds() {
    let mut buffer = vec![2u8];
    buffer.extend_from_slice(&le(5));
    buffer.extend_from_slice(&le(7));
    assert_eq!(
        ExchangeInstruction::unpack(&buffer),
        Ok(ExchangeInstruction::Initbet { amount: 5, odds: 7 })
    );
}

#[test]
fn decode_initbet_with_short_odds_window_fails() {
    let mut buffer = vec![2u8];
    buffer.extend_from_slice(&le(5));
    assert_eq!(
        ExchangeInstruction::unpack(&buffer),
        Err(ExchangeError::InvalidEncoding)
    );
}

#[test]
fn decode_settle_flag_one_means_user_won() {
    assert_eq!(
        ExchangeInstruction::unpack(&[3, 1]),
        Ok(ExchangeInstruction::Settle { user_won: true })
    );
}

#[test]
fn decode_settle_flag_zero_means_pool_won() {
    assert_eq!(
        ExchangeInstruction::unpack(&[3, 0]),
        Ok(ExchangeInstruction::Settle { user_won: false })
    );
}

#[test]
fn decode_settle_last_byte_governs() {
    // The final byte of the payload decides, not the first: padding after a
    // winning flag silently turns the outcome into a loss.
    assert_eq!(
        ExchangeInstruction::unpack(&[3, 5, 0]),
        Ok(ExchangeInstruction::Settle { user_won: false })
    );
    assert_eq!(
        ExchangeInstruction::unpack(&[3, 0, 1]),
        Ok(ExchangeInstruction::Settle { user_won: true })
    );
}

#[test]
fn decode_settle_without_payload_fails() {
    assert_eq!(
        ExchangeInstruction::unpack(&[3]),
        Err(ExchangeError::InvalidEncoding)
    );
}

#[test]
fn decode_unknown_tag_fails() {
    let mut buffer = vec![4u8];
    buffer.extend_from_slice(&le(5));
    assert_eq!(
        ExchangeInstruction::unpack(&buffer),
        Err(ExchangeError::InvalidEncoding)
    );
    assert_eq!(
        ExchangeInstruction::unpack(&[255, 1]),
        Err(ExchangeError::InvalidEncoding)
    );
}

#[test]
fn every_operation_survives_a_round_trip() {
    let operations = vec![
        ExchangeInstruction::Deposit { amount: 0 },
        ExchangeInstruction::Deposit { amount: u64::MAX },
        ExchangeInstruction::Withdraw { amount: 3 },
        ExchangeInstruction::Initbet {
            amount: 5,
            odds: 7,
        },
        ExchangeInstruction::Settle { user_won: true },
        ExchangeInstruction::Settle { user_won: false },
    ];
    for op in operations {
        assert_eq!(ExchangeInstruction::unpack(&op.pack()), Ok(op));
    }
}

#[test]
fn pack_writes_the_documented_wire_form() {
    assert_eq!(
        ExchangeInstruction::Deposit {
            amount: 0x0807060504030201
        }
        .pack(),
        vec![0, 1, 2, 3, 4, 5, 6, 7, 8]
    );
    let mut expected = vec![2u8];
    expected.extend_from_slice(&le(5));
    expected.extend_from_slice(&le(7));
    assert_eq!(
        ExchangeInstruction::Initbet { amount: 5, odds: 7 }.pack(),
        expected
    );
    assert_eq!(
        ExchangeInstruction::Settle { user_won: true }.pack(),
        vec![3, 1]
    );
}

#[test]
fn payload_helpers_read_their_fixed_windows() {
    assert_eq!(ExchangeInstruction::unpack_amount(&le(5)), Ok(5));
    assert_eq!(
        ExchangeInstruction::unpack_amount(&[1, 2, 3]),
        Err(ExchangeError::InvalidEncoding)
    );
    let mut payload = le(5);
    payload.extend_from_slice(&le(7));
    assert_eq!(ExchangeInstruction::unpack_odds(&payload), Ok(7));
    assert_eq!(
        ExchangeInstruction::unpack_odds(&le(5)),
        Err(ExchangeError::InvalidEncoding)
    );
    assert_eq!(ExchangeInstruction::unpack_result(&[0, 1]), Ok(true));
    assert_eq!(ExchangeInstruction::unpack_result(&[1, 0]), Ok(false));
    assert_eq!(
        ExchangeInstruction::unpack_result(&[]),
        Err(ExchangeError::InvalidEncoding)
    );
}
