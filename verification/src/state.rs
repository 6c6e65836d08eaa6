use crate::error::EscrowError;
use vstd::prelude::*;

verus! {

use vstd::bytes::lemma_auto_spec_u64_to_from_le_bytes;
use vstd::bytes::spec_u64_from_le_bytes;
use vstd::bytes::spec_u64_to_le_bytes;
use vstd::bytes::u64_from_le_bytes;
use vstd::bytes::u64_to_le_bytes;
use vstd::slice::slice_subrange;
use vstd::slice::slice_to_vec;

/// Width in bytes of an account identity.
pub const IDENTITY_LEN: usize = 32;

/// Total width in bytes of an encoded escrow record: one flag byte,
/// three identities, and an 8-byte little-endian amount.
pub const RECORD_LEN: usize = 105;

/// The persistent record of one escrow agreement.
///
/// Its byte layout is fixed at [`RECORD_LEN`] bytes, in field order,
/// with no padding and no variable-width parts.
#[derive(Debug, Clone, PartialEq, Eq)]
pub struct Escrow {
    /// Guards against double initialization and against reading an
    /// empty slot. False until the initializer transition succeeds.
    pub is_initialized: bool,
    /// The party who funded the escrow and is entitled to its eventual
    /// refund or release.
    pub initializer_pubkey: Vec<u8>,
    /// The account currently holding the escrowed tokens, whose
    /// ownership authority the transition reassigns.
    pub temp_token_account_pubkey: Vec<u8>,
    /// The account the initializer wants to be paid into on a
    /// successful exchange.
    pub initializer_token_to_receive_account_pubkey: Vec<u8>,
    /// The quantity the initializer demands in return, as an opaque
    /// count of the smallest token unit.
    pub expected_amount: u64,
}

/// The strict reading of a record buffer accepts only 0 or 1 as the
/// flag byte.
pub open spec fn spec_flag_valid(b: Seq<u8>) -> bool {
    b[0] == 0 || b[0] == 1
}

/// The lenient reading of the flag byte: 1 means initialized, and any
/// other value stands for a not-yet-initialized slot (fresh storage may
/// hold arbitrary bytes).
pub open spec fn spec_flag_lenient(b: Seq<u8>) -> bool {
    b[0] == 1
}

/// The initializer identity window of an encoded record.
pub open spec fn spec_initializer_bytes(b: Seq<u8>) -> Seq<u8> {
    b.subrange(1, 33)
}

/// The temp-custody identity window of an encoded record.
pub open spec fn spec_temp_custody_bytes(b: Seq<u8>) -> Seq<u8> {
    b.subrange(33, 65)
}

/// The receiving identity window of an encoded record.
pub open spec fn spec_receiving_bytes(b: Seq<u8>) -> Seq<u8> {
    b.subrange(65, 97)
}

/// The expected amount of an encoded record, read little-endian from
/// its final 8 bytes.
pub open spec fn spec_amount(b: Seq<u8>) -> u64 {
    spec_u64_from_le_bytes(b.subrange(97, 105))
}

/// Holds when `r` is what the lenient decode of the first [`RECORD_LEN`]
/// bytes of `b` yields. The strict decode agrees with it whenever the
/// flag byte is valid.
pub open spec fn lenient_decode_matches(b: Seq<u8>, r: Escrow) -> bool {
    &&& r.is_initialized == spec_flag_lenient(b)
    &&& r.initializer_pubkey@ == spec_initializer_bytes(b)
    &&& r.temp_token_account_pubkey@ == spec_temp_custody_bytes(b)
    &&& r.initializer_token_to_receive_account_pubkey@ == spec_receiving_bytes(b)
    &&& r.expected_amount == spec_amount(b)
}

impl Escrow {
    /// A record is well formed when each identity is exactly
    /// [`IDENTITY_LEN`] bytes wide.
    pub open spec fn wf(&self) -> bool {
        &&& self.initializer_pubkey@.len() == IDENTITY_LEN
        &&& self.temp_token_account_pubkey@.len() == IDENTITY_LEN
        &&& self.initializer_token_to_receive_account_pubkey@.len() == IDENTITY_LEN
    }

    /// The flag byte the encoder writes for this record.
    pub open spec fn spec_flag_byte(&self) -> u8 {
        if self.is_initialized {
            1u8
        } else {
            0u8
        }
    }

    /// The full [`RECORD_LEN`]-byte encoding of this record.
    pub open spec fn spec_encoding(&self) -> Seq<u8> {
        seq![self.spec_flag_byte()] + self.initializer_pubkey@ + self.temp_token_account_pubkey@
            + self.initializer_token_to_receive_account_pubkey@ + spec_u64_to_le_bytes(
            self.expected_amount,
        )
    }

    /// Whether the record has gone through its initializer transition.
    pub fn is_initialized(&self) -> (r: bool)
        ensures
            r == self.is_initialized,
    {
        self.is_initialized
    }

    /// The lenient decode, used on a slot before ownership of it is
    /// established: a buffer shorter than [`RECORD_LEN`] is rejected,
    /// and a flag byte other than 0 or 1 reads as not yet initialized.
    pub fn unpack_unchecked_from_slice(src: &[u8]) -> (r: Result<Escrow, EscrowError>)
        ensures
            r is Ok <==> src@.len() >= RECORD_LEN,
            r matches Ok(rec) ==> rec.wf() && lenient_decode_matches(src@, rec),
            r matches Err(e) ==> e == EscrowError::InvalidAccountData,
    {
        if src.len() < RECORD_LEN {
            return Err(EscrowError::InvalidAccountData);
        }
        Ok(Self::read_record_fields(src))
    }

    /// The strict decode: as the lenient one, but a flag byte other
    /// than 0 or 1 fails instead of reading as uninitialized.
    pub fn unpack_from_slice(src: &[u8]) -> (r: Result<Escrow, EscrowError>)
        ensures
            r is Ok <==> src@.len() >= RECORD_LEN && spec_flag_valid(src@),
            r matches Ok(rec) ==> rec.wf() && lenient_decode_matches(src@, rec),
            r matches Err(e) ==> e == EscrowError::InvalidAccountData,
    {
        if src.len() < RECORD_LEN {
            return Err(EscrowError::InvalidAccountData);
        }
        let flag = src[0];
        if flag != 0 && flag != 1 {
            return Err(EscrowError::InvalidAccountData);
        }
        Ok(Self::read_record_fields(src))
    }

    /// Reads the five fields out of a buffer already known to be wide
    /// enough, with the lenient flag reading.
    fn read_record_fields(src: &[u8]) -> (rec: Escrow)
        requires
            src@.len() >= RECORD_LEN,
        ensures
            rec.wf(),
            lenient_decode_matches(src@, rec),
    {
        let flag = src[0];
        let amount_bytes = slice_subrange(src, 97, 105);
        Escrow {
            is_initialized: flag == 1,
            initializer_pubkey: read_identity(src, 1),
            temp_token_account_pubkey: read_identity(src, 33),
            initializer_token_to_receive_account_pubkey: read_identity(src, 65),
            expected_amount: u64_from_le_bytes(amount_bytes),
        }
    }

    /// Encodes this record into the first [`RECORD_LEN`] bytes of
    /// `dst`, leaving any trailing bytes of a larger buffer untouched.
    pub fn pack_into_slice(&self, dst: &mut Vec<u8>)
        requires
            self.wf(),
            old(dst)@.len() >= RECORD_LEN,
        ensures
            final(dst)@.len() == old(dst)@.len(),
            final(dst)@.subrange(0, RECORD_LEN as int) == self.spec_encoding(),
            final(dst)@.subrange(RECORD_LEN as int, final(dst)@.len() as int) == old(
                dst,
            )@.subrange(RECORD_LEN as int, old(dst)@.len() as int),
    {
        dst[0] = if self.is_initialized {
            1
        } else {
            0
        };
        write_bytes(dst, 1, &self.initializer_pubkey);
        write_bytes(dst, 33, &self.temp_token_account_pubkey);
        write_bytes(dst, 65, &self.initializer_token_to_receive_account_pubkey);
        let amount_bytes = u64_to_le_bytes(self.expected_amount);
        write_bytes(dst, 97, &amount_bytes);
        proof {
            assert(final(dst)@.subrange(0, RECORD_LEN as int) =~= self.spec_encoding());
            assert(final(dst)@.subrange(RECORD_LEN as int, final(dst)@.len() as int)
                =~= old(dst)@.subrange(RECORD_LEN as int, old(dst)@.len() as int));
        }
    }
}

/// Copies the 32-byte identity window starting at `start` out of a
/// record buffer.
fn read_identity(src: &[u8], start: usize) -> (out: Vec<u8>)
    requires
        start + IDENTITY_LEN <= src@.len(),
    ensures
        out@ == src@.subrange(start as int, start as int + IDENTITY_LEN),
        out@.len() == IDENTITY_LEN,
{
    let n = src.len();
    proof {
        assert(start + IDENTITY_LEN <= n);
    }
    let piece = slice_subrange(src, start, start + IDENTITY_LEN);
    slice_to_vec(piece)
}

/// Overwrites `dst[start .. start + src.len()]` with `src`, leaving
/// every other byte of `dst` as it was.
fn write_bytes(dst: &mut Vec<u8>, start: usize, src: &Vec<u8>)
    requires
        start + src@.len() <= old(dst)@.len(),
    ensures
        final(dst)@.len() == old(dst)@.len(),
        final(dst)@.subrange(start as int, start as int + src@.len() as int) == src@,
        forall|i: int|
            0 <= i < old(dst)@.len() && !(start <= i < start + src@.len())
                ==> final(dst)@[i] == old(dst)@[i],
{
    let total = dst.len();
    let mut k: usize = 0;
    while k < src.len()
        invariant
            k <= src@.len(),
            start + src@.len() <= total,
            dst@.len() == total,
            dst@.len() == old(dst)@.len(),
            forall|i: int| start <= i < start + k ==> dst@[i] == src@[i - start],
            forall|i: int|
                0 <= i < dst@.len() && !(start <= i < start + src@.len()) ==> dst@[i] == old(
                    dst,
                )@[i],
        decreases src@.len() - k,
    {
        dst[start + k] = src[k];
        k += 1;
    }
    proof {
        assert(final(dst)@.subrange(start as int, start as int + src@.len() as int) =~= src@);
    }
}

/// Round-trip law: a well-formed record, once encoded, reads back as
/// itself, both through the lenient decode and the strict one (the
/// encoder only ever writes a valid flag byte).
pub proof fn lemma_record_round_trip(r: Escrow)
    requires
        r.wf(),
    ensures
        r.spec_encoding().len() == RECORD_LEN,
        spec_flag_valid(r.spec_encoding()),
        lenient_decode_matches(r.spec_encoding(), r),
{
    lemma_auto_spec_u64_to_from_le_bytes();
    let b = r.spec_encoding();
    assert(b[0] == r.spec_flag_byte());
    assert(spec_initializer_bytes(b) =~= r.initializer_pubkey@);
    assert(spec_temp_custody_bytes(b) =~= r.temp_token_account_pubkey@);
    assert(spec_receiving_bytes(b) =~= r.initializer_token_to_receive_account_pubkey@);
    assert(b.subrange(97, 105) =~= spec_u64_to_le_bytes(r.expected_amount));
}

} // verus!
