use money_streaming::{Pubkey, StreamError, StreamInstruction};

fn key(fill: u8) -> Pubkey {
    Pubkey::new_from_array([fill; 32])
}

fn name32(text: &str) -> String {
    let mut s = String::from(text);
    while s.len() < 32 {
        s.push('\0');
    }
    s
}

fn round_trip(ins: StreamInstruction) {
    let bytes = ins.pack();
    assert_eq!(StreamInstruction::unpack(&bytes), Ok(ins));
}

#[test]
fn withdraw_encodes_tag_then_double_bits() {
    let ins = StreamInstruction::Withdraw { withdrawal_amount: 12.5f64.to_bits() };
    let bytes = ins.pack();
    let mut expected = vec![3u8];
    expected.extend_from_slice(&12.5f64.to_le_bytes());
    assert_eq!(bytes, expected);
    assert_eq!(bytes, vec![3, 0, 0, 0, 0, 0, 0, 0x29, 0x40]);
    let back = StreamInstruction::unpack(&bytes).unwrap();
    match back {
        StreamInstruction::Withdraw { withdrawal_amount } => {
            assert_eq!(f64::from_bits(withdrawal_amount), 12.5)
        }
        other => panic!("unexpected {:?}", other),
    }
}

#[test]
fn create_stream_round_trip() {
    round_trip(StreamInstruction::CreateStream {
        beneficiary_address: key(7),
        stream_name: name32("salary"),
        funding_amount: 100.0f64.to_bits(),
        rate_amount: 0.25f64.to_bits(),
        rate_interval_in_seconds: 60,
        start_utc: 1_700_000_000,
        rate_cliff_in_seconds: 3600,
        cliff_vest_amount: 5.0f64.to_bits(),
        cliff_vest_percent: 10.0f64.to_bits(),
        auto_pause_in_seconds: u64::MAX,
    });
}

#[test]
fn propose_update_round_trip() {
    round_trip(StreamInstruction::ProposeUpdate {
        proposed_by: key(1),
        stream_name: name32("new terms \u{e9}"),
        treasurer_address: key(2),
        beneficiary_address: key(3),
        associated_token_address: key(4),
        rate_amount: 1.5f64.to_bits(),
        rate_interval_in_seconds: 1,
        rate_cliff_in_seconds: 2,
        cliff_vest_amount: 3.0f64.to_bits(),
        cliff_vest_percent: 4.0f64.to_bits(),
        auto_pause_in_seconds: 5,
    });
}

#[test]
fn small_variants_round_trip() {
    round_trip(StreamInstruction::AddFunds { contribution_amount: 2.0f64.to_bits(), resume: true });
    round_trip(StreamInstruction::AddFunds { contribution_amount: 0, resume: false });
    round_trip(StreamInstruction::RecoverFunds { recover_amount: 9.75f64.to_bits() });
    round_trip(StreamInstruction::PauseStream);
    round_trip(StreamInstruction::ResumeStream);
    round_trip(StreamInstruction::AnswerUpdate { approve: true });
    round_trip(StreamInstruction::AnswerUpdate { approve: false });
    round_trip(StreamInstruction::CloseStream);
    round_trip(StreamInstruction::CreateTreasury { nounce: 254 });
    round_trip(StreamInstruction::Transfer { amount: f64::NAN.to_bits() });
}

#[test]
fn exact_encodings_of_small_variants() {
    assert_eq!(StreamInstruction::PauseStream.pack(), vec![4]);
    assert_eq!(StreamInstruction::ResumeStream.pack(), vec![5]);
    assert_eq!(StreamInstruction::CloseStream.pack(), vec![8]);
    assert_eq!(StreamInstruction::CreateTreasury { nounce: 9 }.pack(), vec![9, 9]);
    assert_eq!(StreamInstruction::AnswerUpdate { approve: true }.pack(), vec![7, 1]);
    assert_eq!(
        StreamInstruction::AddFunds { contribution_amount: 0x0102030405060708, resume: false }
            .pack(),
        vec![1, 8, 7, 6, 5, 4, 3, 2, 1, 0]
    );
}

#[test]
fn create_stream_layout() {
    let bytes = StreamInstruction::CreateStream {
        beneficiary_address: key(0xAA),
        stream_name: name32("n"),
        funding_amount: 1,
        rate_amount: 2,
        rate_interval_in_seconds: 3,
        start_utc: 4,
        rate_cliff_in_seconds: 5,
        cliff_vest_amount: 6,
        cliff_vest_percent: 7,
        auto_pause_in_seconds: 8,
    }
    .pack();
    assert_eq!(bytes.len(), 129);
    assert_eq!(bytes[0], 0);
    assert!(bytes[1..33].iter().all(|&b| b == 0xAA));
    assert_eq!(bytes[33], b'n');
    for (i, word) in (1u64..=8).enumerate() {
        let at = 65 + 8 * i;
        assert_eq!(&bytes[at..at + 8], &word.to_le_bytes());
    }
}

#[test]
fn empty_input_is_rejected() {
    assert_eq!(StreamInstruction::unpack(&[]), Err(StreamError::InvalidStreamInstruction));
}

#[test]
fn unknown_tags_are_rejected() {
    for tag in 11u8..=255 {
        let mut data = vec![tag];
        data.extend_from_slice(&[0u8; 300]);
        assert_eq!(StreamInstruction::unpack(&data), Err(StreamError::InvalidStreamInstruction));
    }
}

#[test]
fn known_tags_are_accepted() {
    for tag in 0u8..=10 {
        let mut data = vec![tag];
        data.extend_from_slice(&[0u8; 208]);
        assert!(StreamInstruction::unpack(&data).is_ok(), "tag {}", tag);
    }
}

#[test]
fn instruction_flags_are_lenient() {
    let mut data = vec![1u8];
    data.extend_from_slice(&1.0f64.to_le_bytes());
    data.push(2);
    assert_eq!(
        StreamInstruction::unpack(&data),
        Ok(StreamInstruction::AddFunds { contribution_amount: 1.0f64.to_bits(), resume: false })
    );
    assert_eq!(
        StreamInstruction::unpack(&[7, 0xFF]),
        Ok(StreamInstruction::AnswerUpdate { approve: false })
    );
    assert_eq!(
        StreamInstruction::unpack(&[7, 1]),
        Ok(StreamInstruction::AnswerUpdate { approve: true })
    );
}

#[test]
fn create_stream_minimum_length() {
    let mut data = vec![0u8];
    data.extend_from_slice(&[0x41u8; 128]);
    assert!(StreamInstruction::unpack(&data).is_ok());
    data.pop();
    assert_eq!(StreamInstruction::unpack(&data), Err(StreamError::InvalidStreamInstruction));
    data.truncate(1 + 120);
    assert_eq!(StreamInstruction::unpack(&data), Err(StreamError::InvalidStreamInstruction));
    data.truncate(1 + 64);
    assert_eq!(StreamInstruction::unpack(&data), Err(StreamError::InvalidStreamInstruction));
    data.truncate(1 + 63);
    assert_eq!(StreamInstruction::unpack(&data), Err(StreamError::InvalidArgument));
    data.truncate(1 + 31);
    assert_eq!(StreamInstruction::unpack(&data), Err(StreamError::InvalidArgument));
}

#[test]
fn propose_update_short_payloads() {
    let mut data = vec![6u8];
    data.extend_from_slice(&[0u8; 208]);
    assert!(StreamInstruction::unpack(&data).is_ok());
    data.truncate(1 + 207);
    assert_eq!(StreamInstruction::unpack(&data), Err(StreamError::InvalidStreamInstruction));
    data.truncate(1 + 159);
    assert_eq!(StreamInstruction::unpack(&data), Err(StreamError::InvalidArgument));
}

#[test]
fn short_numeric_payloads_are_rejected() {
    for tag in [1u8, 2, 3, 10] {
        assert_eq!(
            StreamInstruction::unpack(&[tag, 0, 0, 0, 0, 0, 0, 0]),
            Err(StreamError::InvalidStreamInstruction)
        );
    }
    assert_eq!(
        StreamInstruction::unpack(&[1, 0, 0, 0, 0, 0, 0, 0, 0]),
        Err(StreamError::InvalidStreamInstruction)
    );
    assert_eq!(StreamInstruction::unpack(&[7]), Err(StreamError::InvalidStreamInstruction));
    assert_eq!(StreamInstruction::unpack(&[9]), Err(StreamError::InvalidStreamInstruction));
}

#[test]
fn payload_less_variants_ignore_trailing_bytes() {
    assert_eq!(StreamInstruction::unpack(&[4, 1, 2, 3]), Ok(StreamInstruction::PauseStream));
    assert_eq!(StreamInstruction::unpack(&[5, 9]), Ok(StreamInstruction::ResumeStream));
    assert_eq!(StreamInstruction::unpack(&[8, 0]), Ok(StreamInstruction::CloseStream));
}

#[test]
fn invalid_utf8_in_name_is_replaced() {
    let mut data = vec![0u8];
    data.extend_from_slice(&[1u8; 32]);
    let mut name = [b'a'; 32];
    name[0] = 0xFF;
    data.extend_from_slice(&name);
    data.extend_from_slice(&[0u8; 64]);
    match StreamInstruction::unpack(&data).unwrap() {
        StreamInstruction::CreateStream { stream_name, .. } => {
            assert!(stream_name.starts_with('\u{FFFD}'));
            assert_eq!(stream_name.chars().count(), 32);
            assert_eq!(&stream_name[3..], &"a".repeat(31));
        }
        other => panic!("unexpected {:?}", other),
    }
}
