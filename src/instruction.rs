//! The instruction wire format: a one-byte tag followed by a payload whose
//! layout the tag fixes.
use vstd::prelude::*;
use vstd::slice::slice_subrange;

use crate::codec::{
    append, flag_byte, lemma_word_at, name_bytes, name_fits, name_of, read_name, read_word, word_at, word_bytes,
    write_flag, write_name, write_word, KEY_LEN, WORD_LEN,
};
use crate::error::StreamError;
use crate::{check_program_account, program_id_bytes};
use crate::pubkey::Pubkey;

verus! {

broadcast use vstd::slice::group_slice_axioms;

/// The operations a caller can ask of the program.
///
/// Amount fields (`funding_amount`, `rate_amount`, `cliff_vest_amount`,
/// `cliff_vest_percent`, `contribution_amount`, `recover_amount`,
/// `withdrawal_amount`, `amount`) hold the bit pattern of an IEEE-754 double
/// (`f64::to_bits`); they travel through the codec unchanged.
#[derive(Clone, Debug, PartialEq)]
pub enum StreamInstruction {
    /// Opens a stream from the treasurer to a beneficiary.
    CreateStream {
        beneficiary_address: Pubkey,
        stream_name: String,
        funding_amount: u64,
        rate_amount: u64,
        rate_interval_in_seconds: u64,
        start_utc: u64,
        rate_cliff_in_seconds: u64,
        cliff_vest_amount: u64,
        cliff_vest_percent: u64,
        auto_pause_in_seconds: u64,
    },
    /// Adds funds to a stream, optionally resuming it.
    AddFunds { contribution_amount: u64, resume: bool },
    /// Takes unvested funds back out of a stream.
    RecoverFunds { recover_amount: u64 },
    /// Pays vested funds out to the beneficiary.
    Withdraw { withdrawal_amount: u64 },
    /// Stops a stream from vesting.
    PauseStream,
    /// Lets a paused stream vest again.
    ResumeStream,
    /// Proposes new terms for a stream to the other party.
    ProposeUpdate {
        proposed_by: Pubkey,
        stream_name: String,
        treasurer_address: Pubkey,
        beneficiary_address: Pubkey,
        associated_token_address: Pubkey,
        rate_amount: u64,
        rate_interval_in_seconds: u64,
        rate_cliff_in_seconds: u64,
        cliff_vest_amount: u64,
        cliff_vest_percent: u64,
        auto_pause_in_seconds: u64,
    },
    /// Accepts or rejects proposed terms.
    AnswerUpdate { approve: bool },
    /// Closes a stream.
    CloseStream,
    /// Creates a treasury account from a bump nonce.
    CreateTreasury { nounce: u8 },
    /// Moves tokens between two accounts.
    Transfer { amount: u64 },
}

/// The largest tag the wire format knows.
pub const MAX_TAG: u8 = 10;

/// The bytes taken by the key and name fields that open the payload of `tag`;
/// a payload shorter than this is rejected with `InvalidArgument`.
pub open spec fn key_prefix_len(tag: u8) -> int {
    if tag == 0 {
        64
    } else if tag == 6 {
        160
    } else {
        0
    }
}

/// The bytes the payload of `tag` must hold; what follows is ignored.
pub open spec fn payload_len(tag: u8) -> int {
    if tag == 0 {
        128
    } else if tag == 1 {
        9
    } else if tag == 2 || tag == 3 || tag == 10 {
        8
    } else if tag == 6 {
        208
    } else if tag == 7 || tag == 9 {
        1
    } else {
        0
    }
}

/// Why a payload of `len` bytes under a known `tag` is rejected, if it is.
pub open spec fn payload_error(tag: u8, len: int) -> Option<StreamError> {
    if len < key_prefix_len(tag) {
        Some(StreamError::InvalidArgument)
    } else if len < payload_len(tag) {
        Some(StreamError::InvalidStreamInstruction)
    } else {
        None
    }
}

/// Why `data` is not an instruction, if it is not one.
pub open spec fn decode_error(data: Seq<u8>) -> Option<StreamError> {
    if data.len() == 0 || data[0] > MAX_TAG {
        Some(StreamError::InvalidStreamInstruction)
    } else {
        payload_error(data[0], data.len() - 1)
    }
}

/// `ins` is what the payload `p` under `tag` stands for, once `p` is long
/// enough for the tag.
pub open spec fn payload_decodes_to(tag: u8, p: Seq<u8>, ins: StreamInstruction) -> bool {
    match ins {
        StreamInstruction::CreateStream {
            beneficiary_address,
            stream_name,
            funding_amount,
            rate_amount,
            rate_interval_in_seconds,
            start_utc,
            rate_cliff_in_seconds,
            cliff_vest_amount,
            cliff_vest_percent,
            auto_pause_in_seconds,
        } => {
            &&& tag == 0
            &&& beneficiary_address@ == p.subrange(0, 32)
            &&& stream_name@ == name_of(p.subrange(32, 64))
            &&& funding_amount == word_at(p, 64)
            &&& rate_amount == word_at(p, 72)
            &&& rate_interval_in_seconds == word_at(p, 80)
            &&& start_utc == word_at(p, 88)
            &&& rate_cliff_in_seconds == word_at(p, 96)
            &&& cliff_vest_amount == word_at(p, 104)
            &&& cliff_vest_percent == word_at(p, 112)
            &&& auto_pause_in_seconds == word_at(p, 120)
        },
        StreamInstruction::AddFunds { contribution_amount, resume } => {
            &&& tag == 1
            &&& contribution_amount == word_at(p, 0)
            &&& resume == (p[8] == 1)
        },
        StreamInstruction::RecoverFunds { recover_amount } => {
            tag == 2 && recover_amount == word_at(p, 0)
        },
        StreamInstruction::Withdraw { withdrawal_amount } => {
            tag == 3 && withdrawal_amount == word_at(p, 0)
        },
        StreamInstruction::PauseStream => tag == 4,
        StreamInstruction::ResumeStream => tag == 5,
        StreamInstruction::ProposeUpdate {
            proposed_by,
            stream_name,
            treasurer_address,
            beneficiary_address,
            associated_token_address,
            rate_amount,
            rate_interval_in_seconds,
            rate_cliff_in_seconds,
            cliff_vest_amount,
            cliff_vest_percent,
            auto_pause_in_seconds,
        } => {
            &&& tag == 6
            &&& proposed_by@ == p.subrange(0, 32)
            &&& stream_name@ == name_of(p.subrange(32, 64))
            &&& treasurer_address@ == p.subrange(64, 96)
            &&& beneficiary_address@ == p.subrange(96, 128)
            &&& associated_token_address@ == p.subrange(128, 160)
            &&& rate_amount == word_at(p, 160)
            &&& rate_interval_in_seconds == word_at(p, 168)
            &&& rate_cliff_in_seconds == word_at(p, 176)
            &&& cliff_vest_amount == word_at(p, 184)
            &&& cliff_vest_percent == word_at(p, 192)
            &&& auto_pause_in_seconds == word_at(p, 200)
        },
        StreamInstruction::AnswerUpdate { approve } => { tag == 7 && approve == (p[0] == 1) },
        StreamInstruction::CloseStream => tag == 8,
        StreamInstruction::CreateTreasury { nounce } => { tag == 9 && nounce == p[0] },
        StreamInstruction::Transfer { amount } => { tag == 10 && amount == word_at(p, 0) },
    }
}

/// `ins` is what the instruction bytes `data` stand for.
pub open spec fn decodes_to(data: Seq<u8>, ins: StreamInstruction) -> bool {
    &&& decode_error(data) is None
    &&& payload_decodes_to(data[0], data.drop_first(), ins)
}

/// Decoding the bytes of an instruction whose names fit their fields gives
/// back that instruction: the bytes are accepted, and the instructions they
/// decode to are exactly those that agree with it field by field.
pub proof fn lemma_instruction_round_trip(x: StreamInstruction, y: StreamInstruction)
    requires
        x.names_fit(),
    ensures
        decode_error(x.encoded()) is None,
        decodes_to(x.encoded(), y) <==> y.same_as(x),
{
    let e = x.encoded();
    let p = e.drop_first();
    match x {
        StreamInstruction::CreateStream {
            beneficiary_address,
            stream_name,
            funding_amount,
            rate_amount,
            rate_interval_in_seconds,
            start_utc,
            rate_cliff_in_seconds,
            cliff_vest_amount,
            cliff_vest_percent,
            auto_pause_in_seconds,
        } => {
            crate::codec::lemma_word_round_trip(funding_amount);
            crate::codec::lemma_word_round_trip(rate_amount);
            crate::codec::lemma_word_round_trip(rate_interval_in_seconds);
            crate::codec::lemma_word_round_trip(start_utc);
            crate::codec::lemma_word_round_trip(rate_cliff_in_seconds);
            crate::codec::lemma_word_round_trip(cliff_vest_amount);
            crate::codec::lemma_word_round_trip(cliff_vest_percent);
            crate::codec::lemma_word_round_trip(auto_pause_in_seconds);
            crate::codec::lemma_name_round_trip(stream_name@);
            assert(p =~= beneficiary_address@ + name_bytes(stream_name) + word_bytes(
                funding_amount,
            ) + word_bytes(rate_amount) + word_bytes(rate_interval_in_seconds) + word_bytes(
                start_utc,
            ) + word_bytes(rate_cliff_in_seconds) + word_bytes(cliff_vest_amount) + word_bytes(
                cliff_vest_percent,
            ) + word_bytes(auto_pause_in_seconds));
            assert(p.len() == 128);
            assert(p.subrange(0, 32) =~= beneficiary_address@);
            assert(p.subrange(32, 64) =~= name_bytes(stream_name));
            assert(p.subrange(64, 72) =~= word_bytes(funding_amount));
            lemma_word_at(p, 64, funding_amount);
            assert(p.subrange(72, 80) =~= word_bytes(rate_amount));
            lemma_word_at(p, 72, rate_amount);
            assert(p.subrange(80, 88) =~= word_bytes(rate_interval_in_seconds));
            lemma_word_at(p, 80, rate_interval_in_seconds);
            assert(p.subrange(88, 96) =~= word_bytes(start_utc));
            lemma_word_at(p, 88, start_utc);
            assert(p.subrange(96, 104) =~= word_bytes(rate_cliff_in_seconds));
            lemma_word_at(p, 96, rate_cliff_in_seconds);
            assert(p.subrange(104, 112) =~= word_bytes(cliff_vest_amount));
            lemma_word_at(p, 104, cliff_vest_amount);
            assert(p.subrange(112, 120) =~= word_bytes(cliff_vest_percent));
            lemma_word_at(p, 112, cliff_vest_percent);
            assert(p.subrange(120, 128) =~= word_bytes(auto_pause_in_seconds));
            lemma_word_at(p, 120, auto_pause_in_seconds);
        },
        StreamInstruction::ProposeUpdate {
            proposed_by,
            stream_name,
            treasurer_address,
            beneficiary_address,
            associated_token_address,
            rate_amount,
            rate_interval_in_seconds,
            rate_cliff_in_seconds,
            cliff_vest_amount,
            cliff_vest_percent,
            auto_pause_in_seconds,
        } => {
            crate::codec::lemma_word_round_trip(rate_amount);
            crate::codec::lemma_word_round_trip(rate_interval_in_seconds);
            crate::codec::lemma_word_round_trip(rate_cliff_in_seconds);
            crate::codec::lemma_word_round_trip(cliff_vest_amount);
            crate::codec::lemma_word_round_trip(cliff_vest_percent);
            crate::codec::lemma_word_round_trip(auto_pause_in_seconds);
            crate::codec::lemma_name_round_trip(stream_name@);
            assert(p =~= proposed_by@ + name_bytes(stream_name) + treasurer_address@
                + beneficiary_address@ + associated_token_address@ + word_bytes(rate_amount)
                + word_bytes(rate_interval_in_seconds) + word_bytes(rate_cliff_in_seconds)
                + word_bytes(cliff_vest_amount) + word_bytes(cliff_vest_percent) + word_bytes(
                auto_pause_in_seconds,
            ));
            assert(p.len() == 208);
            assert(p.subrange(0, 32) =~= proposed_by@);
            assert(p.subrange(32, 64) =~= name_bytes(stream_name));
            assert(p.subrange(64, 96) =~= treasurer_address@);
            assert(p.subrange(96, 128) =~= beneficiary_address@);
            assert(p.subrange(128, 160) =~= associated_token_address@);
            assert(p.subrange(160, 168) =~= word_bytes(rate_amount));
            lemma_word_at(p, 160, rate_amount);
            assert(p.subrange(168, 176) =~= word_bytes(rate_interval_in_seconds));
            lemma_word_at(p, 168, rate_interval_in_seconds);
            assert(p.subrange(176, 184) =~= word_bytes(rate_cliff_in_seconds));
            lemma_word_at(p, 176, rate_cliff_in_seconds);
            assert(p.subrange(184, 192) =~= word_bytes(cliff_vest_amount));
            lemma_word_at(p, 184, cliff_vest_amount);
            assert(p.subrange(192, 200) =~= word_bytes(cliff_vest_percent));
            lemma_word_at(p, 192, cliff_vest_percent);
            assert(p.subrange(200, 208) =~= word_bytes(auto_pause_in_seconds));
            lemma_word_at(p, 200, auto_pause_in_seconds);
        },
        StreamInstruction::AddFunds { contribution_amount, resume } => {
            crate::codec::lemma_word_round_trip(contribution_amount);
            assert(p =~= word_bytes(contribution_amount) + seq![flag_byte(resume)]);
            assert(p.subrange(0, 8) =~= word_bytes(contribution_amount));
            lemma_word_at(p, 0, contribution_amount);
        },
        StreamInstruction::RecoverFunds { recover_amount } => {
            crate::codec::lemma_word_round_trip(recover_amount);
            assert(p =~= word_bytes(recover_amount));
            assert(p.subrange(0, 8) =~= word_bytes(recover_amount));
            lemma_word_at(p, 0, recover_amount);
        },
        StreamInstruction::Withdraw { withdrawal_amount } => {
            crate::codec::lemma_word_round_trip(withdrawal_amount);
            assert(p =~= word_bytes(withdrawal_amount));
            assert(p.subrange(0, 8) =~= word_bytes(withdrawal_amount));
            lemma_word_at(p, 0, withdrawal_amount);
        },
        StreamInstruction::Transfer { amount } => {
            crate::codec::lemma_word_round_trip(amount);
            assert(p =~= word_bytes(amount));
            assert(p.subrange(0, 8) =~= word_bytes(amount));
            lemma_word_at(p, 0, amount);
        },
        StreamInstruction::AnswerUpdate { approve } => {
            assert(p =~= seq![flag_byte(approve)]);
        },
        StreamInstruction::CreateTreasury { nounce } => {
            assert(p =~= seq![nounce]);
        },
        _ => {},
    }
}

/// Two instructions whose names fit their fields and that encode to the same
/// bytes are the same instruction.
pub proof fn lemma_encode_injective(x: StreamInstruction, y: StreamInstruction)
    requires
        x.names_fit(),
        y.names_fit(),
        x.encoded() == y.encoded(),
    ensures
        y.same_as(x),
{
    lemma_instruction_round_trip(x, y);
    lemma_instruction_round_trip(y, y);
}

/// Tags 0 through 10 are accepted once their payload holds the bytes the tag
/// needs; an empty input and every other tag are rejected as an invalid
/// instruction, whatever follows.
pub proof fn lemma_tag_exhaustive(data: Seq<u8>)
    ensures
        data.len() == 0 ==> decode_error(data) == Some(StreamError::InvalidStreamInstruction),
        data.len() > 0 && data[0] > MAX_TAG ==> decode_error(data) == Some(
            StreamError::InvalidStreamInstruction,
        ),
        data.len() > 0 && data[0] <= MAX_TAG && data.len() - 1 >= payload_len(data[0])
            ==> decode_error(data) is None,
{
}

/// The flags an instruction carries (`resume`, `approve`) are read
/// leniently: any byte is accepted, and only 1 reads as true.
pub proof fn lemma_instruction_flags_lenient(data: Seq<u8>, ins: StreamInstruction)
    requires
        data.len() > 0,
        data[0] == 1 && data.len() >= 10 || data[0] == 7 && data.len() >= 2,
    ensures
        decode_error(data) is None,
        decodes_to(data, ins) ==> match ins {
            StreamInstruction::AddFunds { resume, .. } => resume == (data[9] == 1),
            StreamInstruction::AnswerUpdate { approve } => approve == (data[1] == 1),
            _ => false,
        },
{
}

/// A `CreateStream` payload needs 128 bytes: two 32-byte fields (key, name)
/// and eight 8-byte words. It is accepted from that length on; cut inside
/// the key or name it fails with `InvalidArgument`, cut inside the words with
/// `InvalidStreamInstruction`.
pub proof fn lemma_create_stream_length(data: Seq<u8>)
    requires
        data.len() > 0,
        data[0] == 0,
    ensures
        data.len() - 1 >= 128 ==> decode_error(data) is None,
        data.len() - 1 < 64 ==> decode_error(data) == Some(StreamError::InvalidArgument),
        64 <= data.len() - 1 < 128 ==> decode_error(data) == Some(
            StreamError::InvalidStreamInstruction,
        ),
{
}

impl StreamInstruction {
    /// The bytes this instruction is sent as.
    pub open spec fn encoded(&self) -> Seq<u8> {
        match *self {
            StreamInstruction::CreateStream {
                beneficiary_address,
                stream_name,
                funding_amount,
                rate_amount,
                rate_interval_in_seconds,
                start_utc,
                rate_cliff_in_seconds,
                cliff_vest_amount,
                cliff_vest_percent,
                auto_pause_in_seconds,
            } => seq![0u8] + beneficiary_address@ + name_bytes(stream_name) + word_bytes(
                funding_amount,
            ) + word_bytes(rate_amount) + word_bytes(rate_interval_in_seconds) + word_bytes(
                start_utc,
            ) + word_bytes(rate_cliff_in_seconds) + word_bytes(cliff_vest_amount) + word_bytes(
                cliff_vest_percent,
            ) + word_bytes(auto_pause_in_seconds),
            StreamInstruction::AddFunds { contribution_amount, resume } => seq![1u8] + word_bytes(
                contribution_amount,
            ) + seq![flag_byte(resume)],
            StreamInstruction::RecoverFunds { recover_amount } => seq![2u8] + word_bytes(
                recover_amount,
            ),
            StreamInstruction::Withdraw { withdrawal_amount } => seq![3u8] + word_bytes(
                withdrawal_amount,
            ),
            StreamInstruction::PauseStream => seq![4u8],
            StreamInstruction::ResumeStream => seq![5u8],
            StreamInstruction::ProposeUpdate {
                proposed_by,
                stream_name,
                treasurer_address,
                beneficiary_address,
                associated_token_address,
                rate_amount,
                rate_interval_in_seconds,
                rate_cliff_in_seconds,
                cliff_vest_amount,
                cliff_vest_percent,
                auto_pause_in_seconds,
            } => seq![6u8] + proposed_by@ + name_bytes(stream_name) + treasurer_address@
                + beneficiary_address@ + associated_token_address@ + word_bytes(rate_amount)
                + word_bytes(rate_interval_in_seconds) + word_bytes(rate_cliff_in_seconds)
                + word_bytes(cliff_vest_amount) + word_bytes(cliff_vest_percent) + word_bytes(
                auto_pause_in_seconds,
            ),
            StreamInstruction::AnswerUpdate { approve } => seq![7u8, flag_byte(approve)],
            StreamInstruction::CloseStream => seq![8u8],
            StreamInstruction::CreateTreasury { nounce } => seq![9u8, nounce],
            StreamInstruction::Transfer { amount } => seq![10u8] + word_bytes(amount),
        }
    }

    /// Every name the instruction carries is exactly one field wide, the
    /// shape a decoder reproduces.
    pub open spec fn names_fit(&self) -> bool {
        match *self {
            StreamInstruction::CreateStream { stream_name, .. } => name_fits(stream_name),
            StreamInstruction::ProposeUpdate { stream_name, .. } => name_fits(stream_name),
            _ => true,
        }
    }

    /// The two instructions are the same operation with the same field
    /// values, names compared by their characters.
    pub open spec fn same_as(&self, other: StreamInstruction) -> bool {
        match (*self, other) {
            (
                StreamInstruction::CreateStream {
                    beneficiary_address: k1,
                    stream_name: n1,
                    funding_amount: a1,
                    rate_amount: b1,
                    rate_interval_in_seconds: c1,
                    start_utc: d1,
                    rate_cliff_in_seconds: e1,
                    cliff_vest_amount: f1,
                    cliff_vest_percent: g1,
                    auto_pause_in_seconds: h1,
                },
                StreamInstruction::CreateStream {
                    beneficiary_address: k2,
                    stream_name: n2,
                    funding_amount: a2,
                    rate_amount: b2,
                    rate_interval_in_seconds: c2,
                    start_utc: d2,
                    rate_cliff_in_seconds: e2,
                    cliff_vest_amount: f2,
                    cliff_vest_percent: g2,
                    auto_pause_in_seconds: h2,
                },
            ) => k1@ == k2@ && n1@ == n2@ && a1 == a2 && b1 == b2 && c1 == c2 && d1 == d2 && e1
                == e2 && f1 == f2 && g1 == g2 && h1 == h2,
            (
                StreamInstruction::ProposeUpdate {
                    proposed_by: p1,
                    stream_name: n1,
                    treasurer_address: t1,
                    beneficiary_address: k1,
                    associated_token_address: m1,
                    rate_amount: b1,
                    rate_interval_in_seconds: c1,
                    rate_cliff_in_seconds: e1,
                    cliff_vest_amount: f1,
                    cliff_vest_percent: g1,
                    auto_pause_in_seconds: h1,
                },
                StreamInstruction::ProposeUpdate {
                    proposed_by: p2,
                    stream_name: n2,
                    treasurer_address: t2,
                    beneficiary_address: k2,
                    associated_token_address: m2,
                    rate_amount: b2,
                    rate_interval_in_seconds: c2,
                    rate_cliff_in_seconds: e2,
                    cliff_vest_amount: f2,
                    cliff_vest_percent: g2,
                    auto_pause_in_seconds: h2,
                },
            ) => p1@ == p2@ && n1@ == n2@ && t1@ == t2@ && k1@ == k2@ && m1@ == m2@ && b1 == b2
                && c1 == c2 && e1 == e2 && f1 == f2 && g1 == g2 && h1 == h2,
            (StreamInstruction::CreateStream { .. }, _) => false,
            (StreamInstruction::ProposeUpdate { .. }, _) => false,
            (x, y) => x == y,
        }
    }

    /// The bytes this instruction is sent as: the tag, then each field in
    /// declaration order.
    pub fn pack(&self) -> (r: Vec<u8>)
        ensures
            r@ == self.encoded(),
    {
        let mut buf: Vec<u8> = Vec::new();
        match self {
            StreamInstruction::CreateStream {
                beneficiary_address,
                stream_name,
                funding_amount,
                rate_amount,
                rate_interval_in_seconds,
                start_utc,
                rate_cliff_in_seconds,
                cliff_vest_amount,
                cliff_vest_percent,
                auto_pause_in_seconds,
            } => {
                buf.push(0);
                assert(buf@ =~= seq![0u8]);
                append(&mut buf, beneficiary_address.bytes.as_slice());
                write_name(&mut buf, stream_name);
                write_word(&mut buf, *funding_amount);
                write_word(&mut buf, *rate_amount);
                write_word(&mut buf, *rate_interval_in_seconds);
                write_word(&mut buf, *start_utc);
                write_word(&mut buf, *rate_cliff_in_seconds);
                write_word(&mut buf, *cliff_vest_amount);
                write_word(&mut buf, *cliff_vest_percent);
                write_word(&mut buf, *auto_pause_in_seconds);
            },
            StreamInstruction::AddFunds { contribution_amount, resume } => {
                buf.push(1);
                assert(buf@ =~= seq![1u8]);
                write_word(&mut buf, *contribution_amount);
                write_flag(&mut buf, *resume);
                assert(buf@ =~= self.encoded());
            },
            StreamInstruction::RecoverFunds { recover_amount } => {
                buf.push(2);
                assert(buf@ =~= seq![2u8]);
                write_word(&mut buf, *recover_amount);
            },
            StreamInstruction::Withdraw { withdrawal_amount } => {
                buf.push(3);
                assert(buf@ =~= seq![3u8]);
                write_word(&mut buf, *withdrawal_amount);
            },
            StreamInstruction::PauseStream => {
                buf.push(4);
                assert(buf@ =~= seq![4u8]);
            },
            StreamInstruction::ResumeStream => {
                buf.push(5);
                assert(buf@ =~= seq![5u8]);
            },
            StreamInstruction::ProposeUpdate {
                proposed_by,
                stream_name,
                treasurer_address,
                beneficiary_address,
                associated_token_address,
                rate_amount,
                rate_interval_in_seconds,
                rate_cliff_in_seconds,
                cliff_vest_amount,
                cliff_vest_percent,
                auto_pause_in_seconds,
            } => {
                buf.push(6);
                assert(buf@ =~= seq![6u8]);
                append(&mut buf, proposed_by.bytes.as_slice());
                write_name(&mut buf, stream_name);
                append(&mut buf, treasurer_address.bytes.as_slice());
                append(&mut buf, beneficiary_address.bytes.as_slice());
                append(&mut buf, associated_token_address.bytes.as_slice());
                write_word(&mut buf, *rate_amount);
                write_word(&mut buf, *rate_interval_in_seconds);
                write_word(&mut buf, *rate_cliff_in_seconds);
                write_word(&mut buf, *cliff_vest_amount);
                write_word(&mut buf, *cliff_vest_percent);
                write_word(&mut buf, *auto_pause_in_seconds);
            },
            StreamInstruction::AnswerUpdate { approve } => {
                buf.push(7);
                write_flag(&mut buf, *approve);
                assert(buf@ =~= self.encoded());
            },
            StreamInstruction::CloseStream => {
                buf.push(8);
                assert(buf@ =~= seq![8u8]);
            },
            StreamInstruction::CreateTreasury { nounce } => {
                buf.push(9);
                buf.push(*nounce);
                assert(buf@ =~= self.encoded());
            },
            StreamInstruction::Transfer { amount } => {
                buf.push(10);
                assert(buf@ =~= seq![10u8]);
                write_word(&mut buf, *amount);
            },
        }
        buf
    }

    /// Reads the instruction that `instruction_data` carries.
    pub fn unpack(instruction_data: &[u8]) -> (r: Result<StreamInstruction, StreamError>)
        ensures
            match r {
                Ok(ins) => decodes_to(instruction_data@, ins),
                Err(e) => decode_error(instruction_data@) == Some(e),
            },
    {
        let n: usize = instruction_data.len();
        if n == 0 {
            return Err(StreamError::InvalidStreamInstruction);
        }
        let tag = instruction_data[0];
        let result = slice_subrange(instruction_data, 1, n);
        assert(result@ =~= instruction_data@.drop_first());
        match tag {
            0 => Self::unpack_create_stream(result),
            1 => Self::unpack_add_funds(result),
            2 => Self::unpack_recover_funds(result),
            3 => Self::unpack_withdraw(result),
            4 => Ok(StreamInstruction::PauseStream),
            5 => Ok(StreamInstruction::ResumeStream),
            6 => Self::unpack_propose_update(result),
            7 => Self::unpack_answer_update(result),
            8 => Ok(StreamInstruction::CloseStream),
            9 => Self::unpack_create_treasury(result),
            10 => Self::unpack_transfer(result),
            _ => Err(StreamError::InvalidStreamInstruction),
        }
    }

    fn unpack_create_stream(input: &[u8]) -> (r: Result<StreamInstruction, StreamError>)
        ensures
            match r {
                Ok(ins) => payload_error(0, input@.len() as int) is None && payload_decodes_to(
                    0,
                    input@,
                    ins,
                ),
                Err(e) => payload_error(0, input@.len() as int) == Some(e),
            },
    {
        let beneficiary_address = Self::unpack_pubkey(input, 0)?;
        let stream_name = Self::unpack_string(input, 32)?;
        let funding_amount = Self::unpack_u64(input, 64)?;
        let rate_amount = Self::unpack_u64(input, 72)?;
        let rate_interval_in_seconds = Self::unpack_u64(input, 80)?;
        let start_utc = Self::unpack_u64(input, 88)?;
        let rate_cliff_in_seconds = Self::unpack_u64(input, 96)?;
        let cliff_vest_amount = Self::unpack_u64(input, 104)?;
        let cliff_vest_percent = Self::unpack_u64(input, 112)?;
        let auto_pause_in_seconds = Self::unpack_u64(input, 120)?;
        Ok(StreamInstruction::CreateStream {
            beneficiary_address,
            stream_name,
            funding_amount,
            rate_amount,
            rate_interval_in_seconds,
            start_utc,
            rate_cliff_in_seconds,
            cliff_vest_amount,
            cliff_vest_percent,
            auto_pause_in_seconds,
        })
    }

    fn unpack_add_funds(input: &[u8]) -> (r: Result<StreamInstruction, StreamError>)
        ensures
            match r {
                Ok(ins) => payload_error(1, input@.len() as int) is None && payload_decodes_to(
                    1,
                    input@,
                    ins,
                ),
                Err(e) => payload_error(1, input@.len() as int) == Some(e),
            },
    {
        let contribution_amount = Self::unpack_u64(input, 0)?;
        let resume = Self::unpack_flag(input, 8)?;
        Ok(StreamInstruction::AddFunds { contribution_amount, resume })
    }

    fn unpack_recover_funds(input: &[u8]) -> (r: Result<StreamInstruction, StreamError>)
        ensures
            match r {
                Ok(ins) => payload_error(2, input@.len() as int) is None && payload_decodes_to(
                    2,
                    input@,
                    ins,
                ),
                Err(e) => payload_error(2, input@.len() as int) == Some(e),
            },
    {
        let recover_amount = Self::unpack_u64(input, 0)?;
        Ok(StreamInstruction::RecoverFunds { recover_amount })
    }

    fn unpack_withdraw(input: &[u8]) -> (r: Result<StreamInstruction, StreamError>)
        ensures
            match r {
                Ok(ins) => payload_error(3, input@.len() as int) is None && payload_decodes_to(
                    3,
                    input@,
                    ins,
                ),
                Err(e) => payload_error(3, input@.len() as int) == Some(e),
            },
    {
        let withdrawal_amount = Self::unpack_u64(input, 0)?;
        Ok(StreamInstruction::Withdraw { withdrawal_amount })
    }

    fn unpack_propose_update(input: &[u8]) -> (r: Result<StreamInstruction, StreamError>)
        ensures
            match r {
                Ok(ins) => payload_error(6, input@.len() as int) is None && payload_decodes_to(
                    6,
                    input@,
                    ins,
                ),
                Err(e) => payload_error(6, input@.len() as int) == Some(e),
            },
    {
        let proposed_by = Self::unpack_pubkey(input, 0)?;
        let stream_name = Self::unpack_string(input, 32)?;
        let treasurer_address = Self::unpack_pubkey(input, 64)?;
        let beneficiary_address = Self::unpack_pubkey(input, 96)?;
        let associated_token_address = Self::unpack_pubkey(input, 128)?;
        let rate_amount = Self::unpack_u64(input, 160)?;
        let rate_interval_in_seconds = Self::unpack_u64(input, 168)?;
        let rate_cliff_in_seconds = Self::unpack_u64(input, 176)?;
        let cliff_vest_amount = Self::unpack_u64(input, 184)?;
        let cliff_vest_percent = Self::unpack_u64(input, 192)?;
        let auto_pause_in_seconds = Self::unpack_u64(input, 200)?;
        Ok(StreamInstruction::ProposeUpdate {
            proposed_by,
            stream_name,
            treasurer_address,
            beneficiary_address,
            associated_token_address,
            rate_amount,
            rate_interval_in_seconds,
            rate_cliff_in_seconds,
            cliff_vest_amount,
            cliff_vest_percent,
            auto_pause_in_seconds,
        })
    }

    fn unpack_answer_update(input: &[u8]) -> (r: Result<StreamInstruction, StreamError>)
        ensures
            match r {
                Ok(ins) => payload_error(7, input@.len() as int) is None && payload_decodes_to(
                    7,
                    input@,
                    ins,
                ),
                Err(e) => payload_error(7, input@.len() as int) == Some(e),
            },
    {
        let approve = Self::unpack_flag(input, 0)?;
        Ok(StreamInstruction::AnswerUpdate { approve })
    }

    fn unpack_create_treasury(input: &[u8]) -> (r: Result<StreamInstruction, StreamError>)
        ensures
            match r {
                Ok(ins) => payload_error(9, input@.len() as int) is None && payload_decodes_to(
                    9,
                    input@,
                    ins,
                ),
                Err(e) => payload_error(9, input@.len() as int) == Some(e),
            },
    {
        if input.len() == 0 {
            return Err(StreamError::InvalidStreamInstruction);
        }
        let nounce = input[0];
        Ok(StreamInstruction::CreateTreasury { nounce })
    }

    fn unpack_transfer(input: &[u8]) -> (r: Result<StreamInstruction, StreamError>)
        ensures
            match r {
                Ok(ins) => payload_error(10, input@.len() as int) is None && payload_decodes_to(
                    10,
                    input@,
                    ins,
                ),
                Err(e) => payload_error(10, input@.len() as int) == Some(e),
            },
    {
        let amount = Self::unpack_u64(input, 0)?;
        Ok(StreamInstruction::Transfer { amount })
    }

    /// Reads the key at `input[at..at + 32]`.
    fn unpack_pubkey(input: &[u8], at: usize) -> (r: Result<Pubkey, StreamError>)
        ensures
            match r {
                Ok(k) => at + 32 <= input@.len() && k@ == input@.subrange(at as int, at + 32),
                Err(e) => at + 32 > input@.len() && e == StreamError::InvalidArgument,
            },
    {
        if at <= input.len() && input.len() - at >= KEY_LEN {
            Ok(Pubkey::from_slice_at(input, at))
        } else {
            Err(StreamError::InvalidArgument)
        }
    }

    /// Reads the name at `input[at..at + 32]`, replacing invalid UTF-8.
    fn unpack_string(input: &[u8], at: usize) -> (r: Result<String, StreamError>)
        ensures
            match r {
                Ok(s) => at + 32 <= input@.len() && s@ == name_of(
                    input@.subrange(at as int, at + 32),
                ),
                Err(e) => at + 32 > input@.len() && e == StreamError::InvalidArgument,
            },
    {
        if at <= input.len() && input.len() - at >= KEY_LEN {
            Ok(read_name(input, at))
        } else {
            Err(StreamError::InvalidArgument)
        }
    }

    /// Reads the little-endian word at `input[at..at + 8]`; amounts are read
    /// this way too, as the bits of a double.
    fn unpack_u64(input: &[u8], at: usize) -> (r: Result<u64, StreamError>)
        ensures
            match r {
                Ok(x) => at + 8 <= input@.len() && x == word_at(input@, at as int),
                Err(e) => at + 8 > input@.len() && e == StreamError::InvalidStreamInstruction,
            },
    {
        if at <= input.len() && input.len() - at >= WORD_LEN {
            Ok(read_word(input, at))
        } else {
            Err(StreamError::InvalidStreamInstruction)
        }
    }

    /// Reads a flag byte leniently: 1 is true, any other byte is false.
    fn unpack_flag(input: &[u8], at: usize) -> (r: Result<bool, StreamError>)
        ensures
            match r {
                Ok(b) => at < input@.len() && b == (input@[at as int] == 1),
                Err(e) => at >= input@.len() && e == StreamError::InvalidStreamInstruction,
            },
    {
        if at < input.len() {
            Ok(input[at] == 1)
        } else {
            Err(StreamError::InvalidStreamInstruction)
        }
    }
}

/// One account an instruction touches, and how.
#[derive(Clone, Copy, Debug, PartialEq, Eq)]
pub struct AccountMeta {
    pub pubkey: Pubkey,
    pub is_signer: bool,
    pub is_writable: bool,
}

impl AccountMeta {
    /// A writable account.
    pub fn new(pubkey: Pubkey, is_signer: bool) -> (r: AccountMeta)
        ensures
            meta_is(r, pubkey@, is_signer, true),
    {
        AccountMeta { pubkey, is_signer, is_writable: true }
    }

    /// A read-only account.
    pub fn new_readonly(pubkey: Pubkey, is_signer: bool) -> (r: AccountMeta)
        ensures
            meta_is(r, pubkey@, is_signer, false),
    {
        AccountMeta { pubkey, is_signer, is_writable: false }
    }
}

/// `m` names the account `key`, signing and writable as given.
pub open spec fn meta_is(m: AccountMeta, key: Seq<u8>, is_signer: bool, is_writable: bool) -> bool {
    m.pubkey@ == key && m.is_signer == is_signer && m.is_writable == is_writable
}

/// A call of a program: its address, the accounts it touches and the
/// instruction bytes.
#[derive(Clone, Debug, PartialEq)]
pub struct Instruction {
    pub program_id: Pubkey,
    pub accounts: Vec<AccountMeta>,
    pub data: Vec<u8>,
}

/// The bytes of the SPL Token program's address,
/// `TokenkegQfeZyiNwAJbNbGKPFXCWuBvf9Ss623VQ5DA`.
pub open spec fn token_program_bytes() -> Seq<u8> {
    seq![
        6u8, 221, 246, 225, 215, 101, 161, 147, 217, 203, 225, 70, 206, 235, 121, 172,
        28, 180, 133, 237, 95, 91, 55, 145, 58, 140, 245, 133, 126, 255, 0, 169,
    ]
}

/// The bytes of the system program's address, all zero
/// (`11111111111111111111111111111111`).
pub open spec fn system_program_bytes() -> Seq<u8> {
    Seq::new(32, |i: int| 0u8)
}

/// The bytes of the rent sysvar's address,
/// `SysvarRent111111111111111111111111111111111`.
pub open spec fn rent_sysvar_bytes() -> Seq<u8> {
    seq![
        6u8, 167, 213, 23, 25, 44, 92, 81, 33, 140, 201, 76, 61, 74, 241, 127,
        88, 218, 238, 8, 155, 161, 253, 68, 227, 219, 217, 138, 0, 0, 0, 0,
    ]
}

/// Relies on `spl_token::id`, which returns the address declared with
/// `declare_id!("TokenkegQfeZyiNwAJbNbGKPFXCWuBvf9Ss623VQ5DA")`.
#[verifier::external_body]
fn token_program_id() -> (r: Pubkey)
    ensures
        r@ == token_program_bytes(),
{
    Pubkey { bytes: spl_token::id().to_bytes() }
}

/// Relies on `solana_program::system_program::id`, which returns the address
/// declared with `declare_id!("11111111111111111111111111111111")`.
#[verifier::external_body]
fn system_program_id() -> (r: Pubkey)
    ensures
        r@ == system_program_bytes(),
{
    Pubkey { bytes: solana_program::system_program::id().to_bytes() }
}

/// Relies on `solana_program::sysvar::rent::id`, which returns the address
/// declared with `declare_sysvar_id!("SysvarRent111111111111111111111111111111111", Rent)`.
#[verifier::external_body]
fn rent_sysvar_id() -> (r: Pubkey)
    ensures
        r@ == rent_sysvar_bytes(),
{
    Pubkey { bytes: solana_program::sysvar::rent::id().to_bytes() }
}

/// Builds a `CreateStream` call of this program.
pub fn create_stream(
    program_id: &Pubkey,
    treasurer_address: Pubkey,
    treasurer_token_address: Pubkey,
    beneficiary_token_address: Pubkey,
    treasury_address: Pubkey,
    treasury_token_address: Pubkey,
    stream_address: Pubkey,
    mint_address: Pubkey,
    msp_ops_address: Pubkey,
    beneficiary_address: Pubkey,
    stream_name: String,
    funding_amount: u64,
    rate_amount: u64,
    rate_interval_in_seconds: u64,
    start_utc: u64,
    rate_cliff_in_seconds: u64,
    cliff_vest_amount: u64,
    cliff_vest_percent: u64,
    auto_pause_in_seconds: u64,
) -> (r: Result<Instruction, StreamError>)
    ensures
        match r {
            Ok(ix) => {
                &&& program_id@ == program_id_bytes()
                &&& ix.program_id == *program_id
                &&& ix.data@ == seq![0u8] + beneficiary_address@ + name_bytes(stream_name)
                    + word_bytes(funding_amount) + word_bytes(rate_amount) + word_bytes(
                    rate_interval_in_seconds,
                ) + word_bytes(start_utc) + word_bytes(rate_cliff_in_seconds) + word_bytes(
                    cliff_vest_amount,
                ) + word_bytes(cliff_vest_percent) + word_bytes(auto_pause_in_seconds)
                &&& ix.accounts@.len() == 12
                &&& meta_is(ix.accounts@[0], treasurer_address@, true, false)
                &&& meta_is(ix.accounts@[1], treasurer_token_address@, false, true)
                &&& meta_is(ix.accounts@[2], beneficiary_token_address@, false, true)
                &&& meta_is(ix.accounts@[3], treasury_address@, false, false)
                &&& meta_is(ix.accounts@[4], treasury_token_address@, false, true)
                &&& meta_is(ix.accounts@[5], stream_address@, false, true)
                &&& meta_is(ix.accounts@[6], mint_address@, false, true)
                &&& meta_is(ix.accounts@[7], msp_ops_address@, false, true)
                &&& meta_is(ix.accounts@[8], program_id@, false, false)
                &&& meta_is(ix.accounts@[9], token_program_bytes(), false, false)
                &&& meta_is(ix.accounts@[10], system_program_bytes(), false, false)
                &&& meta_is(ix.accounts@[11], rent_sysvar_bytes(), false, false)
            },
            Err(e) => program_id@ != program_id_bytes() && e == StreamError::IncorrectProgramId,
        },
{
    check_program_account(program_id)?;
    let data = StreamInstruction::CreateStream {
        beneficiary_address,
        stream_name,
        funding_amount,
        rate_amount,
        rate_interval_in_seconds,
        start_utc,
        rate_cliff_in_seconds,
        cliff_vest_amount,
        cliff_vest_percent,
        auto_pause_in_seconds,
    }.pack();
    let accounts = vec![
        AccountMeta::new_readonly(treasurer_address, true),
        AccountMeta::new(treasurer_token_address, false),
        AccountMeta::new(beneficiary_token_address, false),
        AccountMeta::new_readonly(treasury_address, false),
        AccountMeta::new(treasury_token_address, false),
        AccountMeta::new(stream_address, false),
        AccountMeta::new(mint_address, false),
        AccountMeta::new(msp_ops_address, false),
        AccountMeta::new_readonly(*program_id, false),
        AccountMeta::new_readonly(token_program_id(), false),
        AccountMeta::new_readonly(system_program_id(), false),
        AccountMeta::new_readonly(rent_sysvar_id(), false),
    ];
    Ok(Instruction { program_id: *program_id, accounts, data })
}

/// Builds an `AddFunds` call of this program.
pub fn add_funds(
    program_id: &Pubkey,
    stream_address: &Pubkey,
    treasury_address: &Pubkey,
    contribution_token_address: Pubkey,
    contribution_amount: u64,
    resume: bool,
) -> (r: Result<Instruction, StreamError>)
    ensures
        match r {
            Ok(ix) => {
                &&& program_id@ == program_id_bytes()
                &&& ix.program_id == *program_id
                &&& ix.data@ == seq![1u8] + word_bytes(contribution_amount) + seq![
                    flag_byte(resume),
                ]
                &&& ix.accounts@.len() == 3
                &&& meta_is(ix.accounts@[0], contribution_token_address@, true, true)
                &&& meta_is(ix.accounts@[1], stream_address@, false, true)
                &&& meta_is(ix.accounts@[2], treasury_address@, false, false)
            },
            Err(e) => program_id@ != program_id_bytes() && e == StreamError::IncorrectProgramId,
        },
{
    check_program_account(program_id)?;
    let data = StreamInstruction::AddFunds { contribution_amount, resume }.pack();
    let accounts = vec![
        AccountMeta::new(contribution_token_address, true),
        AccountMeta::new(*stream_address, false),
        AccountMeta::new_readonly(*treasury_address, false),
    ];
    Ok(Instruction { program_id: *program_id, accounts, data })
}

/// Builds a `Withdraw` call of this program.
pub fn withdraw(
    program_id: &Pubkey,
    beneficiary_account_address: Pubkey,
    stream_account_address: Pubkey,
    treasury_account_address: Pubkey,
    withdrawal_amount: u64,
) -> (r: Result<Instruction, StreamError>)
    ensures
        match r {
            Ok(ix) => {
                &&& program_id@ == program_id_bytes()
                &&& ix.program_id == *program_id
                &&& ix.data@ == seq![3u8] + word_bytes(withdrawal_amount)
                &&& ix.accounts@.len() == 3
                &&& meta_is(ix.accounts@[0], beneficiary_account_address@, false, false)
                &&& meta_is(ix.accounts@[1], stream_account_address@, false, true)
                &&& meta_is(ix.accounts@[2], treasury_account_address@, false, false)
            },
            Err(e) => program_id@ != program_id_bytes() && e == StreamError::IncorrectProgramId,
        },
{
    check_program_account(program_id)?;
    let data = StreamInstruction::Withdraw { withdrawal_amount }.pack();
    let accounts = vec![
        AccountMeta::new_readonly(beneficiary_account_address, false),
        AccountMeta::new(stream_account_address, false),
        AccountMeta::new_readonly(treasury_account_address, false),
    ];
    Ok(Instruction { program_id: *program_id, accounts, data })
}

/// Builds a `CloseStream` call of this program.
pub fn close_stream(
    initializer_account_key: &Pubkey,
    stream_account_key: &Pubkey,
    counterparty_account_key: &Pubkey,
    treasury_account_key: &Pubkey,
    program_id: &Pubkey,
) -> (r: Result<Instruction, StreamError>)
    ensures
        match r {
            Ok(ix) => {
                &&& program_id@ == program_id_bytes()
                &&& ix.program_id == *program_id
                &&& ix.data@ == seq![8u8]
                &&& ix.accounts@.len() == 4
                &&& meta_is(ix.accounts@[0], initializer_account_key@, true, true)
                &&& meta_is(ix.accounts@[1], stream_account_key@, false, true)
                &&& meta_is(ix.accounts@[2], counterparty_account_key@, false, false)
                &&& meta_is(ix.accounts@[3], treasury_account_key@, false, false)
            },
            Err(e) => program_id@ != program_id_bytes() && e == StreamError::IncorrectProgramId,
        },
{
    check_program_account(program_id)?;
    let data = StreamInstruction::CloseStream.pack();
    let accounts = vec![
        AccountMeta::new(*initializer_account_key, true),
        AccountMeta::new(*stream_account_key, false),
        AccountMeta::new_readonly(*counterparty_account_key, false),
        AccountMeta::new_readonly(*treasury_account_key, false),
    ];
    Ok(Instruction { program_id: *program_id, accounts, data })
}

/// Builds a `Transfer` call of this program.
pub fn transfer(
    source_address: Pubkey,
    source_token_address: Pubkey,
    destination_token_address: Pubkey,
    mint_address: Pubkey,
    program_id: &Pubkey,
    amount: u64,
) -> (r: Result<Instruction, StreamError>)
    ensures
        match r {
            Ok(ix) => {
                &&& program_id@ == program_id_bytes()
                &&& ix.program_id == *program_id
                &&& ix.data@ == seq![10u8] + word_bytes(amount)
                &&& ix.accounts@.len() == 5
                &&& meta_is(ix.accounts@[0], source_address@, true, false)
                &&& meta_is(ix.accounts@[1], source_token_address@, false, true)
                &&& meta_is(ix.accounts@[2], destination_token_address@, false, true)
                &&& meta_is(ix.accounts@[3], mint_address@, false, true)
                &&& meta_is(ix.accounts@[4], token_program_bytes(), false, false)
            },
            Err(e) => program_id@ != program_id_bytes() && e == StreamError::IncorrectProgramId,
        },
{
    check_program_account(program_id)?;
    let data = StreamInstruction::Transfer { amount }.pack();
    let accounts = vec![
        AccountMeta::new_readonly(source_address, true),
        AccountMeta::new(source_token_address, false),
        AccountMeta::new(destination_token_address, false),
        AccountMeta::new(mint_address, false),
        AccountMeta::new_readonly(token_program_id(), false),
    ];
    Ok(Instruction { program_id: *program_id, accounts, data })
}

} // verus!
