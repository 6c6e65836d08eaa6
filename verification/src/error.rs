use vstd::prelude::*;

verus! {

/// The failure vocabulary shared by the instruction decoder, the record
/// codec and the escrow initializer. Every error is terminal for the call
/// that raised it: nothing is retried and no partial success is reported.
#[derive(Debug, Clone, Copy, PartialEq, Eq, Structural)]
pub enum EscrowError {
    /// Malformed or unrecognized instruction tag, or a payload too short
    /// for the declared command.
    InvalidInstruction,
    /// Stored bytes that cannot be interpreted: a record buffer shorter
    /// than the fixed record width, a flag byte that the strict decode
    /// rejects, or a rent oracle whose answer is unavailable because
    /// the rent-sysvar account could not be read.
    InvalidAccountData,
    /// The initializer account lacks call authorization.
    MissingRequiredSignature,
    /// The receiving-account descriptor does not match the expected
    /// token-service identity.
    IncorrectProgramId,
    /// The storage slot's value balance is insufficient for its size under
    /// the host's storage-rent rules.
    NotRentExempt,
    /// The storage slot already holds an initialized record.
    AccountAlreadyInitialized,
    /// The host could not derive a program-owned authority identity for
    /// the given seed and program identity.
    AuthorityUnavailable,
    /// An error surfaced by the token-custody service, carried unchanged
    /// in the host's numeric encoding.
    External(u64),
}

} // verus!
