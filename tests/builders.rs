use money_streaming::instruction::AccountMeta;
use money_streaming::{
    add_funds, check_program_account, close_stream, create_stream, id, transfer, withdraw,
    Pubkey, StreamError, StreamInstruction,
};

fn key(fill: u8) -> Pubkey {
    Pubkey::new_from_array([fill; 32])
}

fn name32(text: &str) -> String {
    let mut s = String::from(text);
    while s.len() < 32 {
        s.push('\0');
    }
    s
}

fn meta(k: Pubkey, is_signer: bool, is_writable: bool) -> AccountMeta {
    AccountMeta { pubkey: k, is_signer, is_writable }
}

#[test]
fn program_id_matches_declared_address() {
    let expected: [u8; 32] = [
        19, 4, 136, 29, 189, 227, 127, 184, 213, 39, 127, 110, 143, 70, 217, 218, 110, 188, 19,
        16, 31, 63, 187, 115, 194, 246, 212, 198, 189, 254, 151, 20,
    ];
    assert_eq!(id().to_bytes(), expected);
    let declared: solana_program::pubkey::Pubkey =
        "2HEkjrj21DX2ecNQjAEUPKwr2pEnwSBjgi9GUHWtKnhH".parse().unwrap();
    assert_eq!(id().to_bytes(), declared.to_bytes());
}

#[test]
fn check_program_account_accepts_only_own_id() {
    assert_eq!(check_program_account(&id()), Ok(()));
    assert_eq!(check_program_account(&key(0)), Err(StreamError::IncorrectProgramId));
    let mut bytes = id().to_bytes();
    bytes[31] ^= 1;
    assert_eq!(
        check_program_account(&Pubkey::new_from_array(bytes)),
        Err(StreamError::IncorrectProgramId)
    );
}

#[test]
fn create_stream_builder() {
    let program = id();
    let ix = create_stream(
        &program,
        key(1),
        key(2),
        key(3),
        key(4),
        key(5),
        key(6),
        key(7),
        key(8),
        key(9),
        name32("s"),
        1.0f64.to_bits(),
        2.0f64.to_bits(),
        3,
        4,
        5,
        6.0f64.to_bits(),
        7.0f64.to_bits(),
        8,
    )
    .unwrap();
    assert_eq!(ix.program_id, program);
    let expected = StreamInstruction::CreateStream {
        beneficiary_address: key(9),
        stream_name: name32("s"),
        funding_amount: 1.0f64.to_bits(),
        rate_amount: 2.0f64.to_bits(),
        rate_interval_in_seconds: 3,
        start_utc: 4,
        rate_cliff_in_seconds: 5,
        cliff_vest_amount: 6.0f64.to_bits(),
        cliff_vest_percent: 7.0f64.to_bits(),
        auto_pause_in_seconds: 8,
    };
    assert_eq!(ix.data, expected.pack());
    assert_eq!(StreamInstruction::unpack(&ix.data), Ok(expected));
    let token = Pubkey::new_from_array(spl_token::id().to_bytes());
    let system = Pubkey::new_from_array(solana_program::system_program::id().to_bytes());
    let rent = Pubkey::new_from_array(solana_program::sysvar::rent::id().to_bytes());
    assert_eq!(
        ix.accounts,
        vec![
            meta(key(1), true, false),
            meta(key(2), false, true),
            meta(key(3), false, true),
            meta(key(4), false, false),
            meta(key(5), false, true),
            meta(key(6), false, true),
            meta(key(7), false, true),
            meta(key(8), false, true),
            meta(program, false, false),
            meta(token, false, false),
            meta(system, false, false),
            meta(rent, false, false),
        ]
    );
    assert_ne!(token, key(0));
    assert_eq!(system, key(0));
    assert_eq!(
        &token.to_bytes()[..4],
        &[6, 221, 246, 225],
        "token program address"
    );
    assert_eq!(&rent.to_bytes()[..4], &[6, 167, 213, 23], "rent sysvar address");
}

#[test]
fn add_funds_builder() {
    let ix = add_funds(&id(), &key(1), &key(2), key(3), 2.5f64.to_bits(), true).unwrap();
    assert_eq!(ix.data[0], 1);
    assert_eq!(&ix.data[1..9], &2.5f64.to_le_bytes());
    assert_eq!(ix.data[9], 1);
    assert_eq!(
        ix.accounts,
        vec![meta(key(3), true, true), meta(key(1), false, true), meta(key(2), false, false)]
    );
}

#[test]
fn withdraw_builder() {
    let ix = withdraw(&id(), key(1), key(2), key(3), 12.5f64.to_bits()).unwrap();
    assert_eq!(ix.data, vec![3, 0, 0, 0, 0, 0, 0, 0x29, 0x40]);
    assert_eq!(
        ix.accounts,
        vec![meta(key(1), false, false), meta(key(2), false, true), meta(key(3), false, false)]
    );
}

#[test]
fn close_stream_builder() {
    let ix = close_stream(&key(1), &key(2), &key(3), &key(4), &id()).unwrap();
    assert_eq!(ix.data, vec![8]);
    assert_eq!(
        ix.accounts,
        vec![
            meta(key(1), true, true),
            meta(key(2), false, true),
            meta(key(3), false, false),
            meta(key(4), false, false),
        ]
    );
}

#[test]
fn transfer_builder() {
    let ix = transfer(key(1), key(2), key(3), key(4), &id(), 1.0f64.to_bits()).unwrap();
    assert_eq!(ix.data[0], 10);
    assert_eq!(&ix.data[1..], &1.0f64.to_le_bytes());
    let token = Pubkey::new_from_array(spl_token::id().to_bytes());
    assert_eq!(
        ix.accounts,
        vec![
            meta(key(1), true, false),
            meta(key(2), false, true),
            meta(key(3), false, true),
            meta(key(4), false, true),
            meta(token, false, false),
        ]
    );
}

#[test]
fn builders_reject_foreign_program_id() {
    let other = key(0x55);
    assert_eq!(withdraw(&other, key(1), key(2), key(3), 0), Err(StreamError::IncorrectProgramId));
    assert_eq!(
        add_funds(&other, &key(1), &key(2), key(3), 0, false),
        Err(StreamError::IncorrectProgramId)
    );
    assert_eq!(
        close_stream(&key(1), &key(2), &key(3), &key(4), &other),
        Err(StreamError::IncorrectProgramId)
    );
    assert_eq!(
        transfer(key(1), key(2), key(3), key(4), &other, 0),
        Err(StreamError::IncorrectProgramId)
    );
}
