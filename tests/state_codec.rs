use money_streaming::state::{STREAM_LEN, STREAM_TERMS_LEN};
use money_streaming::{Pubkey, Stream, StreamError, StreamTerms};

fn key(fill: u8) -> Pubkey {
    Pubkey::new_from_array([fill; 32])
}

fn name32(text: &str) -> String {
    let mut s = String::from(text);
    while s.len() < 32 {
        s.push('\0');
    }
    s
}

fn sample_stream() -> Stream {
    Stream {
        initialized: true,
        stream_name: name32("payroll"),
        treasurer_address: key(1),
        rate_amount: 0.5f64.to_bits(),
        rate_interval_in_seconds: 60,
        start_utc: 1_600_000_000,
        rate_cliff_in_seconds: 10,
        cliff_vest_amount: 2.0f64.to_bits(),
        cliff_vest_percent: 20.0f64.to_bits(),
        beneficiary_address: key(2),
        stream_associated_token: key(3),
        treasury_address: key(4),
        treasury_estimated_depletion_utc: 1_700_000_000,
        total_deposits: 100.0f64.to_bits(),
        total_withdrawals: 40.0f64.to_bits(),
        escrow_vested_amount_snap: 45.0f64.to_bits(),
        escrow_vested_amount_snap_block_height: 123_456,
        auto_pause_in_seconds: 99,
        is_streaming: false,
    }
}

fn sample_terms() -> StreamTerms {
    StreamTerms {
        initialized: true,
        proposed_by: key(9),
        stream_name: name32("terms"),
        treasurer_address: key(8),
        beneficiary_address: key(7),
        stream_associated_token: key(6),
        treasury_address: key(5),
        rate_amount: 3.25f64.to_bits(),
        rate_interval_in_seconds: 86_400,
        start_utc: 42,
        rate_cliff_in_seconds: 7,
    }
}

#[test]
fn stream_round_trip() {
    let s = sample_stream();
    let mut buf = [0u8; 258];
    s.pack_into_slice(&mut buf);
    assert_eq!(Stream::unpack_from_slice(&buf), Ok(s));
}

#[test]
fn stream_terms_round_trip() {
    let t = sample_terms();
    let mut buf = vec![0xEEu8; 225];
    t.pack_into_slice(&mut buf);
    assert_eq!(buf.len(), 225);
    assert_eq!(StreamTerms::unpack_from_slice(&buf), Ok(t));
}

#[test]
fn record_lengths() {
    assert_eq!(STREAM_LEN, 258);
    assert_eq!(STREAM_TERMS_LEN, 225);
}

#[test]
fn stream_layout_offsets() {
    let s = sample_stream();
    let mut buf = [0u8; 258];
    s.pack_into_slice(&mut buf);
    assert_eq!(buf[0], 1);
    assert_eq!(&buf[1..8], b"payroll");
    assert!(buf[33..65].iter().all(|&b| b == 1));
    assert_eq!(&buf[65..73], &0.5f64.to_le_bytes());
    assert_eq!(&buf[73..81], &60u64.to_le_bytes());
    assert!(buf[113..145].iter().all(|&b| b == 2));
    assert!(buf[177..209].iter().all(|&b| b == 4));
    assert_eq!(&buf[209..217], &1_700_000_000u64.to_le_bytes());
    assert_eq!(&buf[241..249], &123_456u64.to_le_bytes());
    assert_eq!(&buf[249..257], &99u64.to_le_bytes());
    assert_eq!(buf[257], 0);
}

#[test]
fn stream_terms_layout_offsets() {
    let t = sample_terms();
    let mut buf = [0u8; 225];
    t.pack_into_slice(&mut buf);
    assert_eq!(buf[0], 1);
    assert!(buf[1..33].iter().all(|&b| b == 9));
    assert_eq!(&buf[33..38], b"terms");
    assert!(buf[161..193].iter().all(|&b| b == 5));
    assert_eq!(&buf[193..201], &3.25f64.to_le_bytes());
    assert_eq!(&buf[217..225], &7u64.to_le_bytes());
}

#[test]
fn stored_flags_are_strict() {
    let s = sample_stream();
    let mut buf = [0u8; 258];
    s.pack_into_slice(&mut buf);
    let mut bad = buf;
    bad[0] = 2;
    assert_eq!(Stream::unpack_from_slice(&bad), Err(StreamError::InvalidStreamData));
    let mut bad = buf;
    bad[257] = 0x80;
    assert_eq!(Stream::unpack_from_slice(&bad), Err(StreamError::InvalidStreamData));

    let mut terms = [0u8; 225];
    sample_terms().pack_into_slice(&mut terms);
    terms[0] = 3;
    assert_eq!(StreamTerms::unpack_from_slice(&terms), Err(StreamError::InvalidStreamData));
}

#[test]
fn empty_slot_unpacks_to_default_stream() {
    let mut buf = [0u8; 258];
    buf[257] = 1;
    let s = Stream::unpack_from_slice(&buf).unwrap();
    assert_eq!(s, Stream::default());
    assert!(s.is_streaming);
    assert!(!s.is_initialized());
    assert_eq!(s.stream_name, "\0".repeat(32));
}

#[test]
fn default_records_pack_to_zeros() {
    let mut buf = [0xFFu8; 258];
    Stream::default().pack_into_slice(&mut buf);
    assert!(buf[..257].iter().all(|&b| b == 0));
    assert_eq!(buf[257], 1);

    let mut terms = [0xFFu8; 225];
    StreamTerms::default().pack_into_slice(&mut terms);
    assert!(terms.iter().all(|&b| b == 0));
    assert_eq!(StreamTerms::unpack_from_slice(&terms), Ok(StreamTerms::default()));
}

#[test]
fn stored_name_decoded_leniently() {
    let mut buf = [0u8; 225];
    buf[33] = 0xC3;
    buf[34] = b'x';
    let t = StreamTerms::unpack_from_slice(&buf).unwrap();
    assert!(t.stream_name.starts_with("\u{FFFD}x"));
    assert!(!t.is_initialized());
}
