use crate::error::EscrowError;
use vstd::prelude::*;

verus! {

use vstd::bytes::spec_u64_from_le_bytes;
use vstd::bytes::u64_from_le_bytes;
use vstd::slice::slice_subrange;

/// A typed command decoded from a raw instruction byte-string.
///
/// The first byte of the wire form is a discriminant tag; the remaining
/// bytes are the tag-specific payload.
#[derive(Debug, Clone, Copy, PartialEq, Eq, Structural)]
pub enum EscrowInstruction {
    /// Open a new escrow, demanding `amount` of the counter token
    /// (an opaque count of the smallest token unit) in return.
    InitEscrow { amount: u64 },
}

impl EscrowInstruction {
    /// Decodes a raw instruction byte-string into a typed command.
    ///
    /// Tag `0` selects `InitEscrow`; its payload must carry at least
    /// 8 bytes, read as a little-endian unsigned amount, and trailing
    /// bytes beyond the 8th are ignored. An empty input or any other
    /// tag is rejected.
    pub fn unpack(input: &[u8]) -> (r: Result<EscrowInstruction, EscrowError>)
        ensures
            r is Ok <==> input@.len() >= 9 && input@[0] == 0,
            r matches Ok(cmd) ==> cmd == (EscrowInstruction::InitEscrow {
                amount: spec_u64_from_le_bytes(input@.subrange(1, 9)),
            }),
            r matches Err(e) ==> e == EscrowError::InvalidInstruction,
    {
        if input.len() == 0 {
            return Err(EscrowError::InvalidInstruction);
        }
        let tag = input[0];
        if tag != 0 {
            return Err(EscrowError::InvalidInstruction);
        }
        let rest = slice_subrange(input, 1, input.len());
        match Self::unpack_amount(rest) {
            Ok(amount) => {
                proof {
                    if input@.len() >= 9 {
                        assert(input@.subrange(1, input@.len() as int).subrange(0, 8)
                            =~= input@.subrange(1, 9));
                    }
                }
                Ok(EscrowInstruction::InitEscrow { amount })
            },
            Err(e) => Err(e),
        }
    }

    /// Reads the expected amount from the front of a command payload:
    /// the first 8 bytes as a little-endian unsigned integer.
    pub fn unpack_amount(input: &[u8]) -> (r: Result<u64, EscrowError>)
        ensures
            r is Ok <==> input@.len() >= 8,
            r matches Ok(amount) ==> amount == spec_u64_from_le_bytes(input@.subrange(0, 8)),
            r matches Err(e) ==> e == EscrowError::InvalidInstruction,
    {
        if input.len() < 8 {
            return Err(EscrowError::InvalidInstruction);
        }
        let first = slice_subrange(input, 0, 8);
        Ok(u64_from_le_bytes(first))
    }
}

} // verus!
