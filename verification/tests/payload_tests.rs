use coll_vault::{LedgerError, Stake, STAKE_LEN};

#[test]
fn stake_payload_encodes_nine_bytes() {
    let payload = Stake { instruction: 11, amount: 1000 };
    assert_eq!(payload.get_size(), 9);
    let bytes = payload.to_vec().unwrap();
    assert_eq!(bytes.len(), STAKE_LEN);
    assert_eq!(bytes, vec![11u8, 232, 3, 0, 0, 0, 0, 0, 0]);
}

#[test]
fn stake_payload_round_trip() {
    let payload = Stake { instruction: 11, amount: 1000 };
    let bytes = payload.to_vec().unwrap();
    let decoded = Stake::unpack(&bytes).unwrap();
    assert_eq!(decoded.instruction, 11);
    assert_eq!(decoded.amount, 1000);
}

#[test]
fn stake_payload_round_trip_extremes() {
    for amount in [0u64, 1, 255, 256, u64::MAX - 1, u64::MAX] {
        let payload = Stake { instruction: 12, amount };
        let bytes = payload.to_vec().unwrap();
        assert_eq!(bytes.len(), 9);
        let decoded = Stake::unpack(&bytes).unwrap();
        assert_eq!(decoded.instruction, 12);
        assert_eq!(decoded.amount, amount);
    }
}

#[test]
fn pack_writes_only_the_front_of_the_buffer() {
    let payload = Stake { instruction: 11, amount: 1000 };
    let mut buffer = vec![0xAAu8; 12];
    let written = payload.pack(&mut buffer).unwrap();
    assert_eq!(written, 9);
    assert_eq!(&buffer[..9], &[11u8, 232, 3, 0, 0, 0, 0, 0, 0]);
    assert_eq!(&buffer[9..], &[0xAAu8, 0xAA, 0xAA]);
}

#[test]
fn unpack_rejects_wrong_length() {
    let short = vec![11u8, 1, 2];
    assert_eq!(Stake::unpack(&short), Err(LedgerError::InvalidInstructionData));
    let long = vec![0u8; 10];
    assert_eq!(Stake::unpack(&long), Err(LedgerError::InvalidInstructionData));
}
