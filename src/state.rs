//! The two stored records, each packed at fixed offsets into a buffer of
//! fixed length.
use vstd::prelude::*;

use crate::codec::{
    lemma_word_at, lemma_zero_name, append, flag_byte, lemma_name_round_trip, lemma_word_round_trip, name_bytes, name_fits,
    name_of, read_name, read_word, word_at, word_bytes, write_flag, write_name, write_word,
    zero_filled_name, zero_name,
};
use crate::error::StreamError;
use crate::pubkey::Pubkey;

verus! {

broadcast use vstd::slice::group_slice_axioms;

/// Bytes taken by a stored `StreamTerms`.
pub const STREAM_TERMS_LEN: usize = 225;

/// Bytes taken by a stored `Stream`.
pub const STREAM_LEN: usize = 258;

/// Reads a stored flag strictly: 0 is false, 1 is true, any other byte is
/// rejected.
fn unpack_strict_flag(input: &[u8], at: usize) -> (r: Result<bool, StreamError>)
    requires
        at < input@.len(),
    ensures
        match r {
            Ok(b) => input@[at as int] <= 1 && b == (input@[at as int] == 1),
            Err(e) => input@[at as int] > 1 && e == StreamError::InvalidStreamData,
        },
{
    match input[at] {
        0 => Ok(false),
        1 => Ok(true),
        _ => Err(StreamError::InvalidStreamData),
    }
}

/// Copies `bytes` over `output`, which has the same length.
fn copy_into(output: &mut [u8], bytes: &Vec<u8>)
    requires
        old(output)@.len() == bytes@.len(),
    ensures
        final(output)@ == bytes@,
{
    let n: usize = bytes.len();
    let mut i: usize = 0;
    while i < n
        invariant
            n == bytes@.len(),
            output@.len() == n,
            i <= n,
            forall|j: int| 0 <= j < i ==> output@[j] == bytes@[j],
        decreases n - i,
    {
        output[i] = bytes[i];
        i = i + 1;
    }
    assert(output@ =~= bytes@);
}

/// New terms proposed for an existing stream, awaiting the other party's answer.
#[derive(Clone, Debug, PartialEq)]
pub struct StreamTerms {
    /// Whether the record has been set up.
    pub initialized: bool,
    /// The party that proposed the new terms.
    pub proposed_by: Pubkey,
    /// The stream's name, one 32-byte field of UTF-8.
    pub stream_name: String,
    /// The account that funds the stream.
    pub treasurer_address: Pubkey,
    /// The account that receives the stream.
    pub beneficiary_address: Pubkey,
    /// The token mint of the stream.
    pub stream_associated_token: Pubkey,
    /// The treasury that backs the stream.
    pub treasury_address: Pubkey,
    /// Amount vested per interval, as the bits of a double.
    pub rate_amount: u64,
    /// Length of one vesting interval.
    pub rate_interval_in_seconds: u64,
    /// Unix time at which vesting starts.
    pub start_utc: u64,
    /// Seconds before the cliff amount vests.
    pub rate_cliff_in_seconds: u64,
}

impl StreamTerms {
    /// The 225 bytes the record is stored as: each field at its fixed
    /// offset, in declaration order, with no padding.
    pub open spec fn packed(&self) -> Seq<u8> {
        seq![flag_byte(self.initialized)]
            + self.proposed_by@
            + name_bytes(self.stream_name)
            + self.treasurer_address@
            + self.beneficiary_address@
            + self.stream_associated_token@
            + self.treasury_address@
            + word_bytes(self.rate_amount)
            + word_bytes(self.rate_interval_in_seconds)
            + word_bytes(self.start_utc)
            + word_bytes(self.rate_cliff_in_seconds)
    }

    /// The record is what the stored bytes `data` hold.
    pub open spec fn unpacked_from(&self, data: Seq<u8>) -> bool {
        &&& self.initialized == (data[0] == 1)
        &&& self.proposed_by@ == data.subrange(1, 33)
        &&& self.stream_name@ == name_of(data.subrange(33, 65))
        &&& self.treasurer_address@ == data.subrange(65, 97)
        &&& self.beneficiary_address@ == data.subrange(97, 129)
        &&& self.stream_associated_token@ == data.subrange(129, 161)
        &&& self.treasury_address@ == data.subrange(161, 193)
        &&& self.rate_amount == word_at(data, 193)
        &&& self.rate_interval_in_seconds == word_at(data, 201)
        &&& self.start_utc == word_at(data, 209)
        &&& self.rate_cliff_in_seconds == word_at(data, 217)
    }

    /// Whether each flag byte of the stored bytes `data` is 0 or 1.
    pub open spec fn flags_valid(data: Seq<u8>) -> bool {
        data[0] <= 1
    }

    /// The two records agree field by field, names compared by their
    /// characters.
    pub open spec fn same_as(&self, other: StreamTerms) -> bool {
        &&& self.initialized == other.initialized
        &&& self.proposed_by@ == other.proposed_by@
        &&& self.stream_name@ == other.stream_name@
        &&& self.treasurer_address@ == other.treasurer_address@
        &&& self.beneficiary_address@ == other.beneficiary_address@
        &&& self.stream_associated_token@ == other.stream_associated_token@
        &&& self.treasury_address@ == other.treasury_address@
        &&& self.rate_amount == other.rate_amount
        &&& self.rate_interval_in_seconds == other.rate_interval_in_seconds
        &&& self.start_utc == other.start_utc
        &&& self.rate_cliff_in_seconds == other.rate_cliff_in_seconds
    }

    /// The empty-slot record: zero numbers, zero-filled keys and name,
    /// not initialized.
    pub open spec fn is_default(&self) -> bool {
        &&& self.initialized == false
        &&& self.proposed_by@ == Seq::new(32, |i: int| 0u8)
        &&& self.stream_name@ == zero_name()
        &&& self.treasurer_address@ == Seq::new(32, |i: int| 0u8)
        &&& self.beneficiary_address@ == Seq::new(32, |i: int| 0u8)
        &&& self.stream_associated_token@ == Seq::new(32, |i: int| 0u8)
        &&& self.treasury_address@ == Seq::new(32, |i: int| 0u8)
        &&& self.rate_amount == 0
        &&& self.rate_interval_in_seconds == 0
        &&& self.start_utc == 0
        &&& self.rate_cliff_in_seconds == 0
    }

    /// Whether the record has been set up.
    pub fn is_initialized(&self) -> (r: bool)
        ensures
            r == self.initialized,
    {
        self.initialized
    }

    /// Writes the record into `output`, which must be exactly 225 bytes long
    /// and whose name must take exactly its 32 bytes.
    pub fn pack_into_slice(&self, output: &mut [u8])
        requires
            old(output)@.len() == STREAM_TERMS_LEN,
            name_fits(self.stream_name),
        ensures
            final(output)@ == self.packed(),
    {
        let mut buf: Vec<u8> = Vec::new();
        write_flag(&mut buf, self.initialized);
        append(&mut buf, self.proposed_by.bytes.as_slice());
        write_name(&mut buf, &self.stream_name);
        append(&mut buf, self.treasurer_address.bytes.as_slice());
        append(&mut buf, self.beneficiary_address.bytes.as_slice());
        append(&mut buf, self.stream_associated_token.bytes.as_slice());
        append(&mut buf, self.treasury_address.bytes.as_slice());
        write_word(&mut buf, self.rate_amount);
        write_word(&mut buf, self.rate_interval_in_seconds);
        write_word(&mut buf, self.start_utc);
        write_word(&mut buf, self.rate_cliff_in_seconds);
        proof {
            lemma_stream_terms_packed_len(*self);
            assert(buf@ =~= self.packed());
        }
        copy_into(output, &buf);
    }

    /// Reads the record stored in `input`, which must be exactly 225 bytes
    /// long. Flag bytes must be 0 or 1; names are decoded leniently.
    pub fn unpack_from_slice(input: &[u8]) -> (r: Result<StreamTerms, StreamError>)
        requires
            input@.len() == STREAM_TERMS_LEN,
        ensures
            match r {
                Ok(s) => StreamTerms::flags_valid(input@) && s.unpacked_from(input@),
                Err(e) => !StreamTerms::flags_valid(input@) && e == StreamError::InvalidStreamData,
            },
    {
        let initialized = unpack_strict_flag(input, 0)?;
        let proposed_by = Pubkey::from_slice_at(input, 1);
        let stream_name = read_name(input, 33);
        let treasurer_address = Pubkey::from_slice_at(input, 65);
        let beneficiary_address = Pubkey::from_slice_at(input, 97);
        let stream_associated_token = Pubkey::from_slice_at(input, 129);
        let treasury_address = Pubkey::from_slice_at(input, 161);
        let rate_amount = read_word(input, 193);
        let rate_interval_in_seconds = read_word(input, 201);
        let start_utc = read_word(input, 209);
        let rate_cliff_in_seconds = read_word(input, 217);
        Ok(StreamTerms {
            initialized,
            proposed_by,
            stream_name,
            treasurer_address,
            beneficiary_address,
            stream_associated_token,
            treasury_address,
            rate_amount,
            rate_interval_in_seconds,
            start_utc,
            rate_cliff_in_seconds,
        })
    }
}

impl Default for StreamTerms {
    fn default() -> (r: StreamTerms)
        ensures
            r.is_default(),
    {
        let r = StreamTerms {
            initialized: false,
            proposed_by: Pubkey::new_from_array([0u8; 32]),
            stream_name: zero_filled_name(),
            treasurer_address: Pubkey::new_from_array([0u8; 32]),
            beneficiary_address: Pubkey::new_from_array([0u8; 32]),
            stream_associated_token: Pubkey::new_from_array([0u8; 32]),
            treasury_address: Pubkey::new_from_array([0u8; 32]),
            rate_amount: 0,
            rate_interval_in_seconds: 0,
            start_utc: 0,
            rate_cliff_in_seconds: 0,
        };
        assert(r.proposed_by@ =~= Seq::new(32, |i: int| 0u8));
        r
    }
}

/// A record whose name takes exactly its field packs to 225 bytes,
/// whatever its other fields hold.
pub proof fn lemma_stream_terms_packed_len(s: StreamTerms)
    requires
        name_fits(s.stream_name),
    ensures
        s.packed().len() == STREAM_TERMS_LEN,
{
    lemma_word_round_trip(s.rate_amount);
    lemma_word_round_trip(s.rate_interval_in_seconds);
    lemma_word_round_trip(s.start_utc);
    lemma_word_round_trip(s.rate_cliff_in_seconds);
}

/// Unpacking the bytes a record packs to gives back that record: the flag
/// bytes are valid, and the records the bytes hold are exactly those that
/// agree with it field by field.
pub proof fn lemma_stream_terms_round_trip(s: StreamTerms, t: StreamTerms)
    requires
        name_fits(s.stream_name),
    ensures
        StreamTerms::flags_valid(s.packed()),
        t.unpacked_from(s.packed()) <==> t.same_as(s),
{
    let p = s.packed();
    lemma_stream_terms_packed_len(s);
    lemma_name_round_trip(s.stream_name@);
    lemma_word_round_trip(s.rate_amount);
    lemma_word_round_trip(s.rate_interval_in_seconds);
    lemma_word_round_trip(s.start_utc);
    lemma_word_round_trip(s.rate_cliff_in_seconds);
    assert(p.subrange(1, 33) =~= s.proposed_by@);
    assert(p.subrange(33, 65) =~= name_bytes(s.stream_name));
    assert(p.subrange(65, 97) =~= s.treasurer_address@);
    assert(p.subrange(97, 129) =~= s.beneficiary_address@);
    assert(p.subrange(129, 161) =~= s.stream_associated_token@);
    assert(p.subrange(161, 193) =~= s.treasury_address@);
    assert(p.subrange(193, 201) =~= word_bytes(s.rate_amount));
    assert(p.subrange(201, 209) =~= word_bytes(s.rate_interval_in_seconds));
    assert(p.subrange(209, 217) =~= word_bytes(s.start_utc));
    assert(p.subrange(217, 225) =~= word_bytes(s.rate_cliff_in_seconds));
    lemma_word_at(p, 193, s.rate_amount);
    lemma_word_at(p, 201, s.rate_interval_in_seconds);
    lemma_word_at(p, 209, s.start_utc);
    lemma_word_at(p, 217, s.rate_cliff_in_seconds);
}

/// The stored state of one stream.
#[derive(Clone, Debug, PartialEq)]
pub struct Stream {
    /// Whether the record has been set up.
    pub initialized: bool,
    /// The stream's name, one 32-byte field of UTF-8.
    pub stream_name: String,
    /// The account that funds the stream.
    pub treasurer_address: Pubkey,
    /// Amount vested per interval, as the bits of a double.
    pub rate_amount: u64,
    /// Length of one vesting interval.
    pub rate_interval_in_seconds: u64,
    /// Unix time at which vesting starts.
    pub start_utc: u64,
    /// Seconds before the cliff amount vests.
    pub rate_cliff_in_seconds: u64,
    /// Amount vested at the cliff, as the bits of a double.
    pub cliff_vest_amount: u64,
    /// Share vested at the cliff, as the bits of a double.
    pub cliff_vest_percent: u64,
    /// The account that receives the stream.
    pub beneficiary_address: Pubkey,
    /// The token mint of the stream.
    pub stream_associated_token: Pubkey,
    /// The treasury that backs the stream.
    pub treasury_address: Pubkey,
    /// Estimated unix time at which the treasury runs dry.
    pub treasury_estimated_depletion_utc: u64,
    /// Sum of deposits, as the bits of a double.
    pub total_deposits: u64,
    /// Sum of withdrawals, as the bits of a double.
    pub total_withdrawals: u64,
    /// Vested amount at the last snapshot, as the bits of a double.
    pub escrow_vested_amount_snap: u64,
    /// Reference height of the last snapshot.
    pub escrow_vested_amount_snap_block_height: u64,
    /// Seconds after which the stream pauses itself.
    pub auto_pause_in_seconds: u64,
    /// Whether the stream is vesting (not paused).
    pub is_streaming: bool,
}

impl Stream {
    /// The 258 bytes the record is stored as: each field at its fixed
    /// offset, in declaration order, with no padding.
    pub open spec fn packed(&self) -> Seq<u8> {
        seq![flag_byte(self.initialized)]
            + name_bytes(self.stream_name)
            + self.treasurer_address@
            + word_bytes(self.rate_amount)
            + word_bytes(self.rate_interval_in_seconds)
            + word_bytes(self.start_utc)
            + word_bytes(self.rate_cliff_in_seconds)
            + word_bytes(self.cliff_vest_amount)
            + word_bytes(self.cliff_vest_percent)
            + self.beneficiary_address@
            + self.stream_associated_token@
            + self.treasury_address@
            + word_bytes(self.treasury_estimated_depletion_utc)
            + word_bytes(self.total_deposits)
            + word_bytes(self.total_withdrawals)
            + word_bytes(self.escrow_vested_amount_snap)
            + word_bytes(self.escrow_vested_amount_snap_block_height)
            + word_bytes(self.auto_pause_in_seconds)
            + seq![flag_byte(self.is_streaming)]
    }

    /// The record is what the stored bytes `data` hold.
    pub open spec fn unpacked_from(&self, data: Seq<u8>) -> bool {
        &&& self.initialized == (data[0] == 1)
        &&& self.stream_name@ == name_of(data.subrange(1, 33))
        &&& self.treasurer_address@ == data.subrange(33, 65)
        &&& self.rate_amount == word_at(data, 65)
        &&& self.rate_interval_in_seconds == word_at(data, 73)
        &&& self.start_utc == word_at(data, 81)
        &&& self.rate_cliff_in_seconds == word_at(data, 89)
        &&& self.cliff_vest_amount == word_at(data, 97)
        &&& self.cliff_vest_percent == word_at(data, 105)
        &&& self.beneficiary_address@ == data.subrange(113, 145)
        &&& self.stream_associated_token@ == data.subrange(145, 177)
        &&& self.treasury_address@ == data.subrange(177, 209)
        &&& self.treasury_estimated_depletion_utc == word_at(data, 209)
        &&& self.total_deposits == word_at(data, 217)
        &&& self.total_withdrawals == word_at(data, 225)
        &&& self.escrow_vested_amount_snap == word_at(data, 233)
        &&& self.escrow_vested_amount_snap_block_height == word_at(data, 241)
        &&& self.auto_pause_in_seconds == word_at(data, 249)
        &&& self.is_streaming == (data[257] == 1)
    }

    /// Whether each flag byte of the stored bytes `data` is 0 or 1.
    pub open spec fn flags_valid(data: Seq<u8>) -> bool {
        data[0] <= 1 && data[257] <= 1
    }

    /// The two records agree field by field, names compared by their
    /// characters.
    pub open spec fn same_as(&self, other: Stream) -> bool {
        &&& self.initialized == other.initialized
        &&& self.stream_name@ == other.stream_name@
        &&& self.treasurer_address@ == other.treasurer_address@
        &&& self.rate_amount == other.rate_amount
        &&& self.rate_interval_in_seconds == other.rate_interval_in_seconds
        &&& self.start_utc == other.start_utc
        &&& self.rate_cliff_in_seconds == other.rate_cliff_in_seconds
        &&& self.cliff_vest_amount == other.cliff_vest_amount
        &&& self.cliff_vest_percent == other.cliff_vest_percent
        &&& self.beneficiary_address@ == other.beneficiary_address@
        &&& self.stream_associated_token@ == other.stream_associated_token@
        &&& self.treasury_address@ == other.treasury_address@
        &&& self.treasury_estimated_depletion_utc == other.treasury_estimated_depletion_utc
        &&& self.total_deposits == other.total_deposits
        &&& self.total_withdrawals == other.total_withdrawals
        &&& self.escrow_vested_amount_snap == other.escrow_vested_amount_snap
        &&& self.escrow_vested_amount_snap_block_height == other.escrow_vested_amount_snap_block_height
        &&& self.auto_pause_in_seconds == other.auto_pause_in_seconds
        &&& self.is_streaming == other.is_streaming
    }

    /// The empty-slot record: zero numbers, zero-filled keys and name,
    /// not initialized, streaming.
    pub open spec fn is_default(&self) -> bool {
        &&& self.initialized == false
        &&& self.stream_name@ == zero_name()
        &&& self.treasurer_address@ == Seq::new(32, |i: int| 0u8)
        &&& self.rate_amount == 0
        &&& self.rate_interval_in_seconds == 0
        &&& self.start_utc == 0
        &&& self.rate_cliff_in_seconds == 0
        &&& self.cliff_vest_amount == 0
        &&& self.cliff_vest_percent == 0
        &&& self.beneficiary_address@ == Seq::new(32, |i: int| 0u8)
        &&& self.stream_associated_token@ == Seq::new(32, |i: int| 0u8)
        &&& self.treasury_address@ == Seq::new(32, |i: int| 0u8)
        &&& self.treasury_estimated_depletion_utc == 0
        &&& self.total_deposits == 0
        &&& self.total_withdrawals == 0
        &&& self.escrow_vested_amount_snap == 0
        &&& self.escrow_vested_amount_snap_block_height == 0
        &&& self.auto_pause_in_seconds == 0
        &&& self.is_streaming == true
    }

    /// Whether the record has been set up.
    pub fn is_initialized(&self) -> (r: bool)
        ensures
            r == self.initialized,
    {
        self.initialized
    }

    /// Writes the record into `output`, which must be exactly 258 bytes long
    /// and whose name must take exactly its 32 bytes.
    pub fn pack_into_slice(&self, output: &mut [u8])
        requires
            old(output)@.len() == STREAM_LEN,
            name_fits(self.stream_name),
        ensures
            final(output)@ == self.packed(),
    {
        let mut buf: Vec<u8> = Vec::new();
        write_flag(&mut buf, self.initialized);
        write_name(&mut buf, &self.stream_name);
        append(&mut buf, self.treasurer_address.bytes.as_slice());
        write_word(&mut buf, self.rate_amount);
        write_word(&mut buf, self.rate_interval_in_seconds);
        write_word(&mut buf, self.start_utc);
        write_word(&mut buf, self.rate_cliff_in_seconds);
        write_word(&mut buf, self.cliff_vest_amount);
        write_word(&mut buf, self.cliff_vest_percent);
        append(&mut buf, self.beneficiary_address.bytes.as_slice());
        append(&mut buf, self.stream_associated_token.bytes.as_slice());
        append(&mut buf, self.treasury_address.bytes.as_slice());
        write_word(&mut buf, self.treasury_estimated_depletion_utc);
        write_word(&mut buf, self.total_deposits);
        write_word(&mut buf, self.total_withdrawals);
        write_word(&mut buf, self.escrow_vested_amount_snap);
        write_word(&mut buf, self.escrow_vested_amount_snap_block_height);
        write_word(&mut buf, self.auto_pause_in_seconds);
        write_flag(&mut buf, self.is_streaming);
        proof {
            lemma_stream_packed_len(*self);
            assert(buf@ =~= self.packed());
        }
        copy_into(output, &buf);
    }

    /// Reads the record stored in `input`, which must be exactly 258 bytes
    /// long. Flag bytes must be 0 or 1; names are decoded leniently.
    pub fn unpack_from_slice(input: &[u8]) -> (r: Result<Stream, StreamError>)
        requires
            input@.len() == STREAM_LEN,
        ensures
            match r {
                Ok(s) => Stream::flags_valid(input@) && s.unpacked_from(input@),
                Err(e) => !Stream::flags_valid(input@) && e == StreamError::InvalidStreamData,
            },
    {
        let initialized = unpack_strict_flag(input, 0)?;
        let stream_name = read_name(input, 1);
        let treasurer_address = Pubkey::from_slice_at(input, 33);
        let rate_amount = read_word(input, 65);
        let rate_interval_in_seconds = read_word(input, 73);
        let start_utc = read_word(input, 81);
        let rate_cliff_in_seconds = read_word(input, 89);
        let cliff_vest_amount = read_word(input, 97);
        let cliff_vest_percent = read_word(input, 105);
        let beneficiary_address = Pubkey::from_slice_at(input, 113);
        let stream_associated_token = Pubkey::from_slice_at(input, 145);
        let treasury_address = Pubkey::from_slice_at(input, 177);
        let treasury_estimated_depletion_utc = read_word(input, 209);
        let total_deposits = read_word(input, 217);
        let total_withdrawals = read_word(input, 225);
        let escrow_vested_amount_snap = read_word(input, 233);
        let escrow_vested_amount_snap_block_height = read_word(input, 241);
        let auto_pause_in_seconds = read_word(input, 249);
        let is_streaming = unpack_strict_flag(input, 257)?;
        Ok(Stream {
            initialized,
            stream_name,
            treasurer_address,
            rate_amount,
            rate_interval_in_seconds,
            start_utc,
            rate_cliff_in_seconds,
            cliff_vest_amount,
            cliff_vest_percent,
            beneficiary_address,
            stream_associated_token,
            treasury_address,
            treasury_estimated_depletion_utc,
            total_deposits,
            total_withdrawals,
            escrow_vested_amount_snap,
            escrow_vested_amount_snap_block_height,
            auto_pause_in_seconds,
            is_streaming,
        })
    }
}

impl Default for Stream {
    fn default() -> (r: Stream)
        ensures
            r.is_default(),
    {
        let r = Stream {
            initialized: false,
            stream_name: zero_filled_name(),
            treasurer_address: Pubkey::new_from_array([0u8; 32]),
            rate_amount: 0,
            rate_interval_in_seconds: 0,
            start_utc: 0,
            rate_cliff_in_seconds: 0,
            cliff_vest_amount: 0,
            cliff_vest_percent: 0,
            beneficiary_address: Pubkey::new_from_array([0u8; 32]),
            stream_associated_token: Pubkey::new_from_array([0u8; 32]),
            treasury_address: Pubkey::new_from_array([0u8; 32]),
            treasury_estimated_depletion_utc: 0,
            total_deposits: 0,
            total_withdrawals: 0,
            escrow_vested_amount_snap: 0,
            escrow_vested_amount_snap_block_height: 0,
            auto_pause_in_seconds: 0,
            is_streaming: true,
        };
        assert(r.treasurer_address@ =~= Seq::new(32, |i: int| 0u8));
        r
    }
}

/// A record whose name takes exactly its field packs to 258 bytes,
/// whatever its other fields hold.
pub proof fn lemma_stream_packed_len(s: Stream)
    requires
        name_fits(s.stream_name),
    ensures
        s.packed().len() == STREAM_LEN,
{
    lemma_word_round_trip(s.rate_amount);
    lemma_word_round_trip(s.rate_interval_in_seconds);
    lemma_word_round_trip(s.start_utc);
    lemma_word_round_trip(s.rate_cliff_in_seconds);
    lemma_word_round_trip(s.cliff_vest_amount);
    lemma_word_round_trip(s.cliff_vest_percent);
    lemma_word_round_trip(s.treasury_estimated_depletion_utc);
    lemma_word_round_trip(s.total_deposits);
    lemma_word_round_trip(s.total_withdrawals);
    lemma_word_round_trip(s.escrow_vested_amount_snap);
    lemma_word_round_trip(s.escrow_vested_amount_snap_block_height);
    lemma_word_round_trip(s.auto_pause_in_seconds);
}

/// Unpacking the bytes a record packs to gives back that record: the flag
/// bytes are valid, and the records the bytes hold are exactly those that
/// agree with it field by field.
pub proof fn lemma_stream_round_trip(s: Stream, t: Stream)
    requires
        name_fits(s.stream_name),
    ensures
        Stream::flags_valid(s.packed()),
        t.unpacked_from(s.packed()) <==> t.same_as(s),
{
    let p = s.packed();
    lemma_stream_packed_len(s);
    lemma_name_round_trip(s.stream_name@);
    lemma_word_round_trip(s.rate_amount);
    lemma_word_round_trip(s.rate_interval_in_seconds);
    lemma_word_round_trip(s.start_utc);
    lemma_word_round_trip(s.rate_cliff_in_seconds);
    lemma_word_round_trip(s.cliff_vest_amount);
    lemma_word_round_trip(s.cliff_vest_percent);
    lemma_word_round_trip(s.treasury_estimated_depletion_utc);
    lemma_word_round_trip(s.total_deposits);
    lemma_word_round_trip(s.total_withdrawals);
    lemma_word_round_trip(s.escrow_vested_amount_snap);
    lemma_word_round_trip(s.escrow_vested_amount_snap_block_height);
    lemma_word_round_trip(s.auto_pause_in_seconds);
    assert(p.subrange(1, 33) =~= name_bytes(s.stream_name));
    assert(p.subrange(33, 65) =~= s.treasurer_address@);
    assert(p.subrange(65, 73) =~= word_bytes(s.rate_amount));
    assert(p.subrange(73, 81) =~= word_bytes(s.rate_interval_in_seconds));
    assert(p.subrange(81, 89) =~= word_bytes(s.start_utc));
    assert(p.subrange(89, 97) =~= word_bytes(s.rate_cliff_in_seconds));
    assert(p.subrange(97, 105) =~= word_bytes(s.cliff_vest_amount));
    assert(p.subrange(105, 113) =~= word_bytes(s.cliff_vest_percent));
    assert(p.subrange(113, 145) =~= s.beneficiary_address@);
    assert(p.subrange(145, 177) =~= s.stream_associated_token@);
    assert(p.subrange(177, 209) =~= s.treasury_address@);
    assert(p.subrange(209, 217) =~= word_bytes(s.treasury_estimated_depletion_utc));
    assert(p.subrange(217, 225) =~= word_bytes(s.total_deposits));
    assert(p.subrange(225, 233) =~= word_bytes(s.total_withdrawals));
    assert(p.subrange(233, 241) =~= word_bytes(s.escrow_vested_amount_snap));
    assert(p.subrange(241, 249) =~= word_bytes(s.escrow_vested_amount_snap_block_height));
    assert(p.subrange(249, 257) =~= word_bytes(s.auto_pause_in_seconds));
    lemma_word_at(p, 65, s.rate_amount);
    lemma_word_at(p, 73, s.rate_interval_in_seconds);
    lemma_word_at(p, 81, s.start_utc);
    lemma_word_at(p, 89, s.rate_cliff_in_seconds);
    lemma_word_at(p, 97, s.cliff_vest_amount);
    lemma_word_at(p, 105, s.cliff_vest_percent);
    lemma_word_at(p, 209, s.treasury_estimated_depletion_utc);
    lemma_word_at(p, 217, s.total_deposits);
    lemma_word_at(p, 225, s.total_withdrawals);
    lemma_word_at(p, 233, s.escrow_vested_amount_snap);
    lemma_word_at(p, 241, s.escrow_vested_amount_snap_block_height);
    lemma_word_at(p, 249, s.auto_pause_in_seconds);
}

/// The stored flags (`initialized`, and `is_streaming` of a `Stream`) are
/// read strictly: a buffer holds a record only where each flag byte is 0 or 1.
pub proof fn lemma_stored_flags_strict(stream_data: Seq<u8>, terms_data: Seq<u8>)
    requires
        stream_data.len() == STREAM_LEN,
        terms_data.len() == STREAM_TERMS_LEN,
    ensures
        Stream::flags_valid(stream_data) <==> stream_data[0] <= 1 && stream_data[257] <= 1,
        StreamTerms::flags_valid(terms_data) <==> terms_data[0] <= 1,
{
}

/// Eight zero bytes read as the word 0.
proof fn lemma_zero_word(p: Seq<u8>, at: int)
    requires
        0 <= at,
        at + 8 <= p.len(),
        forall|i: int| at <= i < at + 8 ==> p[i] == 0,
    ensures
        word_at(p, at) == 0,
{
    vstd::bytes::spec_u64_to_le_bytes_to_open(0);
    assert(0u64 & 0xff == 0 && (0u64 >> 8u64) & 0xff == 0 && (0u64 >> 16u64) & 0xff == 0 && (0u64
        >> 24u64) & 0xff == 0 && (0u64 >> 32u64) & 0xff == 0 && (0u64 >> 40u64) & 0xff == 0 && (0u64
        >> 48u64) & 0xff == 0 && (0u64 >> 56u64) & 0xff == 0) by (bit_vector);
    assert(p.subrange(at, at + 8) =~= word_bytes(0));
    lemma_word_round_trip(0);
}

/// The bytes of an empty stream slot: all zero but the streaming flag, 1.
pub open spec fn empty_stream_bytes() -> Seq<u8> {
    Seq::new(257, |i: int| 0u8).push(1u8)
}

/// A buffer of zero bytes whose streaming flag is 1 holds exactly the
/// default `Stream`.
pub proof fn lemma_empty_slot_is_default(s: Stream)
    requires
        s.unpacked_from(empty_stream_bytes()),
    ensures
        Stream::flags_valid(empty_stream_bytes()),
        s.is_default(),
{
    let p = empty_stream_bytes();
    lemma_zero_name();
    assert(p.subrange(1, 33) =~= Seq::new(32, |i: int| 0u8));
    assert(p.subrange(33, 65) =~= Seq::new(32, |i: int| 0u8));
    assert(p.subrange(113, 145) =~= Seq::new(32, |i: int| 0u8));
    assert(p.subrange(145, 177) =~= Seq::new(32, |i: int| 0u8));
    assert(p.subrange(177, 209) =~= Seq::new(32, |i: int| 0u8));
    lemma_zero_word(p, 65);
    lemma_zero_word(p, 73);
    lemma_zero_word(p, 81);
    lemma_zero_word(p, 89);
    lemma_zero_word(p, 97);
    lemma_zero_word(p, 105);
    lemma_zero_word(p, 209);
    lemma_zero_word(p, 217);
    lemma_zero_word(p, 225);
    lemma_zero_word(p, 233);
    lemma_zero_word(p, 241);
    lemma_zero_word(p, 249);
}

} // verus!
