use escrow_core::error::EscrowError;
use escrow_core::instruction::EscrowInstruction;
use escrow_core::state::Escrow;

fn sample_record() -> Escrow {
    Escrow {
        is_initialized: true,
        initializer_pubkey: vec![7u8; 32],
        temp_token_account_pubkey: vec![8u8; 32],
        initializer_token_to_receive_account_pubkey: vec![9u8; 32],
        expected_amount: 123_456_789_012_345u64,
    }
}

#[test]
fn record_round_trip() {
    let record = sample_record();
    let mut buffer = vec![0u8; 105];
    record.pack_into_slice(&mut buffer);
    let lenient = Escrow::unpack_unchecked_from_slice(&buffer).unwrap();
    assert_eq!(lenient, record);
    let strict = Escrow::unpack_from_slice(&buffer).unwrap();
    assert_eq!(strict, record);
}

#[test]
fn record_round_trip_uninitialized() {
    let mut record = sample_record();
    record.is_initialized = false;
    let mut buffer = vec![0u8; 105];
    record.pack_into_slice(&mut buffer);
    assert_eq!(Escrow::unpack_unchecked_from_slice(&buffer).unwrap(), record);
    assert_eq!(Escrow::unpack_from_slice(&buffer).unwrap(), record);
}

#[test]
fn encode_exact_layout() {
    let record = sample_record();
    let mut buffer = vec![0u8; 105];
    record.pack_into_slice(&mut buffer);
    assert_eq!(buffer[0], 1);
    assert_eq!(&buffer[1..33], &[7u8; 32][..]);
    assert_eq!(&buffer[33..65], &[8u8; 32][..]);
    assert_eq!(&buffer[65..97], &[9u8; 32][..]);
    assert_eq!(&buffer[97..105], &123_456_789_012_345u64.to_le_bytes()[..]);
}

#[test]
fn encode_leaves_trailing_bytes_untouched() {
    let record = sample_record();
    let mut buffer = vec![0u8; 110];
    for (i, byte) in buffer.iter_mut().enumerate() {
        *byte = 200 + i as u8 % 50;
    }
    let expected_tail = buffer[105..110].to_vec();
    record.pack_into_slice(&mut buffer);
    assert_eq!(buffer.len(), 110);
    assert_eq!(&buffer[105..110], &expected_tail[..]);
    assert_eq!(Escrow::unpack_from_slice(&buffer).unwrap(), record);
}

#[test]
fn decode_short_buffer_fails() {
    let buffer = vec![0u8; 104];
    assert_eq!(
        Escrow::unpack_unchecked_from_slice(&buffer),
        Err(EscrowError::InvalidAccountData)
    );
    assert_eq!(
        Escrow::unpack_from_slice(&buffer),
        Err(EscrowError::InvalidAccountData)
    );
    assert_eq!(
        Escrow::unpack_from_slice(&[]),
        Err(EscrowError::InvalidAccountData)
    );
}

#[test]
fn strict_decode_rejects_bad_flag() {
    let mut buffer = vec![0u8; 105];
    buffer[0] = 7;
    assert_eq!(
        Escrow::unpack_from_slice(&buffer),
        Err(EscrowError::InvalidAccountData)
    );
}

#[test]
fn lenient_decode_treats_bad_flag_as_uninitialized() {
    let mut buffer = vec![0u8; 105];
    buffer[0] = 7;
    let record = Escrow::unpack_unchecked_from_slice(&buffer).unwrap();
    assert!(!record.is_initialized);
    assert!(!record.is_initialized());
}

#[test]
fn unpack_empty_input_fails() {
    assert_eq!(
        EscrowInstruction::unpack(&[]),
        Err(EscrowError::InvalidInstruction)
    );
}

#[test]
fn unpack_missing_payload_fails() {
    assert_eq!(
        EscrowInstruction::unpack(&[0]),
        Err(EscrowError::InvalidInstruction)
    );
}

#[test]
fn unpack_unknown_tag_fails() {
    assert_eq!(
        EscrowInstruction::unpack(&[1, 1, 2, 3]),
        Err(EscrowError::InvalidInstruction)
    );
}

#[test]
fn unpack_init_escrow_amount() {
    let input = [0u8, 100, 0, 0, 0, 0, 0, 0, 0];
    assert_eq!(
        EscrowInstruction::unpack(&input),
        Ok(EscrowInstruction::InitEscrow { amount: 100 })
    );
}

#[test]
fn unpack_ignores_trailing_bytes() {
    let mut input = vec![0u8];
    input.extend_from_slice(&0x0102_0304_0506_0708u64.to_le_bytes());
    input.extend_from_slice(&[0xAA, 0xBB, 0xCC]);
    assert_eq!(
        EscrowInstruction::unpack(&input),
        Ok(EscrowInstruction::InitEscrow {
            amount: 0x0102_0304_0506_0708
        })
    );
}

#[test]
fn unpack_amount_reads_little_endian() {
    let bytes = 0x0102_0304_0506_0708u64.to_le_bytes();
    assert_eq!(
        EscrowInstruction::unpack_amount(&bytes),
        Ok(0x0102_0304_0506_0708)
    );
}

#[test]
fn unpack_amount_short_payload_fails() {
    assert_eq!(
        EscrowInstruction::unpack_amount(&[1, 2, 3]),
        Err(EscrowError::InvalidInstruction)
    );
}
