//! The boundary to the host ledger and the token-custody service.
//!
//! Everything here is trusted: Verus believes the stated contracts and
//! does not read the bodies, which make the outside calls. Each item
//! names the outside function it relies on.

use crate::state::IDENTITY_LEN;
use solana_program::pubkey::Pubkey;
use vstd::prelude::*;

verus! {

/// The identity the host derives from a seed and a program identity.
/// The derivation is a deterministic, collision-resistant one-way
/// function of those two arguments alone.
pub uninterp spec fn derived_authority_of(seed: Seq<u8>, program_identity: Seq<u8>) -> Seq<u8>;

/// Whether an identity is the token-custody service's own program
/// identity, the fixed 32-byte value the token service publishes.
pub uninterp spec fn is_token_service_id(identity: Seq<u8>) -> bool;

/// The host's numeric encoding of its incorrect-program-identity
/// error: builtin error 7, carried in the high 32 bits.
pub const INCORRECT_PROGRAM_ID_CODE: u64 = 0x7_0000_0000;

#[verifier::external_type_specification]
#[verifier::external_body]
pub struct ExInstruction(solana_program::instruction::Instruction);

/// Relies on `Pubkey::try_find_program_address`: the derived identity
/// is a function of the seed and the program identity alone, and the
/// search fails only in the statistically improbable event that no
/// viable bump seed exists.
#[verifier::external_body]
pub(crate) fn derive_authority(seed: &[u8], program_identity: &Vec<u8>) -> (r: Option<Vec<u8>>)
    requires
        program_identity@.len() == IDENTITY_LEN,
    ensures
        r matches Some(authority) ==> authority@ == derived_authority_of(
            seed@,
            program_identity@,
        ) && authority@.len() == IDENTITY_LEN,
{
    let program = solana_program::pubkey::Pubkey::new_from_array(
        program_identity.as_slice().try_into().unwrap(),
    );
    solana_program::pubkey::Pubkey::try_find_program_address(&[seed], &program).map(
        |found: (solana_program::pubkey::Pubkey, u8)| found.0.to_bytes().to_vec(),
    )
}

/// Relies on `spl_token::instruction::set_authority`: it builds the
/// token service's authority-change instruction for the given target,
/// new authority of kind "account owner", and current authorizer, who
/// co-signs. It succeeds exactly when the given token-service identity
/// is the token program's own, and its only failure is the host's
/// incorrect-program-identity encoding.
#[verifier::external_body]
pub(crate) fn set_authority_instruction(
    token_service: &Vec<u8>,
    target: &Vec<u8>,
    new_authority: &Vec<u8>,
    current_authorizer: &Vec<u8>,
) -> (r: Result<solana_program::instruction::Instruction, u64>)
    requires
        token_service@.len() == IDENTITY_LEN,
        target@.len() == IDENTITY_LEN,
        new_authority@.len() == IDENTITY_LEN,
        current_authorizer@.len() == IDENTITY_LEN,
    ensures
        r is Ok <==> is_token_service_id(token_service@),
        r matches Err(code) ==> code == INCORRECT_PROGRAM_ID_CODE,
{
    let service = Pubkey::new_from_array(token_service.as_slice().try_into().unwrap());
    let owned = Pubkey::new_from_array(target.as_slice().try_into().unwrap());
    let authority = Pubkey::new_from_array(new_authority.as_slice().try_into().unwrap());
    let owner = Pubkey::new_from_array(current_authorizer.as_slice().try_into().unwrap());
    spl_token::instruction::set_authority(
        &service,
        &owned,
        Some(&authority),
        spl_token::instruction::AuthorityType::AccountOwner,
        &owner,
        &[&owner],
    ).map_err(u64::from)
}

} // verus!
