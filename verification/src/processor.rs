use crate::error::EscrowError;
use crate::host::derive_authority;
use crate::host::derived_authority_of;
use crate::host::is_token_service_id;
use crate::host::set_authority_instruction;
use crate::host::INCORRECT_PROGRAM_ID_CODE;
use crate::instruction::EscrowInstruction;
use crate::state::spec_flag_lenient;
use crate::state::Escrow;
use crate::state::IDENTITY_LEN;
use crate::state::RECORD_LEN;
use vstd::prelude::*;

verus! {

use vstd::bytes::spec_u64_from_le_bytes;
use vstd::slice::slice_to_vec;

/// One external-account handle, as the host ledger supplies it for the
/// duration of a call: an identity, a value balance, the host-verified
/// authorization ("signer") flag, and the account's byte buffer.
#[derive(Debug, Clone, PartialEq, Eq)]
pub struct AccountHandle {
    /// The account's 32-byte identity.
    pub identity: Vec<u8>,
    /// The account's value balance.
    pub lamports: u64,
    /// Whether the account is cryptographically authorized for this call.
    pub is_signer: bool,
    /// The account's storage bytes.
    pub data: Vec<u8>,
}

impl AccountHandle {
    /// A handle is well formed when its identity is exactly
    /// [`IDENTITY_LEN`] bytes wide.
    pub open spec fn wf(&self) -> bool {
        self.identity@.len() == IDENTITY_LEN
    }
}

/// The custody-authority-change request handed to the token service on
/// a successful initialization: reassign the target account's ownership
/// authority (the authority kind is always "account owner") to the
/// derived authority, authorized by the current owner, who co-signs.
#[derive(Debug, Clone, PartialEq, Eq)]
pub struct AuthorityChangeRequest {
    /// Identity of the token-service program to invoke.
    pub token_service: Vec<u8>,
    /// The token-holding account whose authority changes.
    pub target: Vec<u8>,
    /// The program-derived identity that becomes the new authority.
    pub new_authority: Vec<u8>,
    /// The current authority, who must co-sign the request.
    pub current_authorizer: Vec<u8>,
}

impl AuthorityChangeRequest {
    /// A request is well formed when each identity is exactly
    /// [`IDENTITY_LEN`] bytes wide.
    pub open spec fn wf(&self) -> bool {
        &&& self.token_service@.len() == IDENTITY_LEN
        &&& self.target@.len() == IDENTITY_LEN
        &&& self.new_authority@.len() == IDENTITY_LEN
        &&& self.current_authorizer@.len() == IDENTITY_LEN
    }
}

/// Every handle in the ordered account list is well formed.
pub open spec fn accounts_wf(a: Seq<AccountHandle>) -> bool {
    forall|i: int| 0 <= i < a.len() ==> (#[trigger] a[i]).wf()
}

/// The initializer (account 1) is authorized for this call.
pub open spec fn spec_signer_ok(a: Seq<AccountHandle>) -> bool {
    a[0].is_signer
}

/// The receiving-account descriptor (account 3) matches the expected
/// token-service identity.
pub open spec fn spec_service_ok(a: Seq<AccountHandle>, service: Seq<u8>) -> bool {
    a[2].identity@ == service
}

/// The escrow storage slot (account 4) is wide enough to hold a record.
pub open spec fn spec_slot_ready(a: Seq<AccountHandle>) -> bool {
    a[3].data@.len() >= RECORD_LEN
}

/// The storage slot's current bytes already read, leniently, as an
/// initialized record.
pub open spec fn spec_slot_initialized(a: Seq<AccountHandle>) -> bool {
    spec_flag_lenient(a[3].data@)
}

/// The instruction byte-string decodes to the one known command: a
/// tag byte of 0 followed by at least 8 bytes of amount.
pub open spec fn spec_init_wire_ok(data: Seq<u8>) -> bool {
    data.len() >= 9 && data[0] == 0
}

/// Every validation step of the transition passes: the call is
/// authorized, the descriptor matches the service, the slot is
/// rent-exempt, wide enough, and not yet initialized.
pub open spec fn spec_preconditions_met(
    a: Seq<AccountHandle>,
    service: Seq<u8>,
    exemption: Option<bool>,
) -> bool {
    &&& spec_signer_ok(a)
    &&& spec_service_ok(a, service)
    &&& exemption == Some(true)
    &&& spec_slot_ready(a)
    &&& !spec_slot_initialized(a)
}

/// The record a successful initialization writes: initialized, the
/// three identities of accounts 1 to 3, and the demanded amount.
pub open spec fn spec_new_record(a: Seq<AccountHandle>, amount: u64) -> Escrow {
    Escrow {
        is_initialized: true,
        initializer_pubkey: a[0].identity,
        temp_token_account_pubkey: a[1].identity,
        initializer_token_to_receive_account_pubkey: a[2].identity,
        expected_amount: amount,
    }
}

/// Copies a byte vector.
fn clone_bytes(src: &Vec<u8>) -> (out: Vec<u8>)
    ensures
        out@ == src@,
{
    slice_to_vec(src.as_slice())
}

/// Compares two byte vectors for equality of contents.
fn eq_bytes(a: &Vec<u8>, b: &Vec<u8>) -> (r: bool)
    ensures
        r <==> a@ =~= b@,
{
    if a.len() != b.len() {
        return false;
    }
    let n = a.len();
    let mut k: usize = 0;
    while k < n
        invariant
            k <= n,
            n == a@.len() == b@.len(),
            forall|i: int| 0 <= i < k ==> a@[i] == b@[i],
        decreases n - k,
    {
        if a[k] != b[k] {
            return false;
        }
        k += 1;
    }
    true
}

/// The escrow state-transition component. It validates the ordered
/// account list, writes the escrow record, and prepares the
/// custody-authority change.
pub struct Processor;

impl Processor {
    /// Decodes the raw instruction bytes and dispatches the resulting
    /// command; the one known command is escrow initialization.
    ///
    /// `exemption` is the rent oracle's answer for the storage slot,
    /// computed by the caller at the host boundary (`None` when the
    /// rent sysvar could not be read). On success the storage slot
    /// (account 4) holds the finalized record and the returned request
    /// names the custody change that must be invoked on the token
    /// service.
    pub fn process(
        program_id: &Vec<u8>,
        accounts: &mut Vec<AccountHandle>,
        instruction_data: &[u8],
        exemption: Option<bool>,
        token_service_identity: &Vec<u8>,
        seed: &[u8],
    ) -> (r: Result<AuthorityChangeRequest, EscrowError>)
        requires
            old(accounts)@.len() >= 6,
            accounts_wf(old(accounts)@),
            program_id@.len() == IDENTITY_LEN,
            token_service_identity@.len() == IDENTITY_LEN,
        ensures
            final(accounts)@.len() == old(accounts)@.len(),
            forall|i: int|
                0 <= i < old(accounts)@.len() && i != 3 ==> final(accounts)@[i] == old(
                    accounts,
                )@[i],
            r is Err ==> final(accounts)@ == old(accounts)@,
            r == Err::<AuthorityChangeRequest, EscrowError>(EscrowError::InvalidInstruction)
                <==> !spec_init_wire_ok(instruction_data@),
            r == Err::<AuthorityChangeRequest, EscrowError>(EscrowError::MissingRequiredSignature)
                <==> spec_init_wire_ok(instruction_data@) && !spec_signer_ok(old(accounts)@),
            r == Err::<AuthorityChangeRequest, EscrowError>(EscrowError::IncorrectProgramId)
                <==> spec_init_wire_ok(instruction_data@) && spec_signer_ok(old(accounts)@)
                && !spec_service_ok(old(accounts)@, token_service_identity@),
            r == Err::<AuthorityChangeRequest, EscrowError>(EscrowError::NotRentExempt) <==> (
            spec_init_wire_ok(instruction_data@) && spec_signer_ok(old(accounts)@)
                && spec_service_ok(old(accounts)@, token_service_identity@) && exemption == Some(
                false,
            )),
            r == Err::<AuthorityChangeRequest, EscrowError>(EscrowError::InvalidAccountData) <==> (
            spec_init_wire_ok(instruction_data@) && spec_signer_ok(old(accounts)@)
                && spec_service_ok(old(accounts)@, token_service_identity@) && (exemption is None
                || (exemption == Some(true) && !spec_slot_ready(old(accounts)@)))),
            r == Err::<AuthorityChangeRequest, EscrowError>(EscrowError::AccountAlreadyInitialized)
                <==> (spec_init_wire_ok(instruction_data@) && spec_signer_ok(old(accounts)@)
                && spec_service_ok(old(accounts)@, token_service_identity@) && exemption == Some(
                true,
            ) && spec_slot_ready(old(accounts)@) && spec_slot_initialized(old(accounts)@)),
            r == Err::<AuthorityChangeRequest, EscrowError>(EscrowError::AuthorityUnavailable)
                ==> spec_init_wire_ok(instruction_data@) && spec_preconditions_met(
                old(accounts)@,
                token_service_identity@,
                exemption,
            ),
            spec_init_wire_ok(instruction_data@) && spec_preconditions_met(
                old(accounts)@,
                token_service_identity@,
                exemption,
            ) ==> r is Ok || r == Err::<AuthorityChangeRequest, EscrowError>(
                EscrowError::AuthorityUnavailable,
            ),
            spec_slot_ready(old(accounts)@) && spec_slot_initialized(old(accounts)@) ==> r is Err,
            r is Ok ==> spec_init_wire_ok(instruction_data@) && spec_preconditions_met(
                old(accounts)@,
                token_service_identity@,
                exemption,
            ),
            r is Ok ==> ({
                let written = final(accounts)@[3].data@;
                let before = old(accounts)@[3].data@;
                let rec = spec_new_record(
                    old(accounts)@,
                    spec_u64_from_le_bytes(instruction_data@.subrange(1, 9)),
                );
                &&& final(accounts)@[3].identity@ == old(accounts)@[3].identity@
                &&& final(accounts)@[3].lamports == old(accounts)@[3].lamports
                &&& final(accounts)@[3].is_signer == old(accounts)@[3].is_signer
                &&& written.len() == before.len()
                &&& written.subrange(0, RECORD_LEN as int) == rec.spec_encoding()
                &&& written.subrange(RECORD_LEN as int, written.len() as int) == before.subrange(
                    RECORD_LEN as int,
                    before.len() as int,
                )
            }),
            r matches Ok(req) ==> req.wf() && req.token_service@ == old(accounts)@[5].identity@
                && req.target@ == old(accounts)@[1].identity@ && req.current_authorizer@ == old(
                accounts,
            )@[0].identity@ && req.new_authority@ == derived_authority_of(seed@, program_id@),
    {
        let command = match EscrowInstruction::unpack(instruction_data) {
            Ok(command) => command,
            Err(e) => {
                return Err(e);
            },
        };
        match command {
            EscrowInstruction::InitEscrow { amount } => {
                Self::process_init_escrow(
                    accounts,
                    amount,
                    exemption,
                    program_id,
                    token_service_identity,
                    seed,
                )
            },
        }
    }

    /// The initialization transition: derives the program authority
    /// through the host and applies the validated transition.
    ///
    /// `exemption` is the rent oracle's answer for the storage slot,
    /// computed by the caller at the host boundary (`None` when the
    /// rent sysvar could not be read). Whatever the host's derivation
    /// returns, the validation order, the record written and the
    /// request returned are those of [`Self::apply_init_escrow`].
    #[verifier::rlimit(30)]
    pub fn process_init_escrow(
        accounts: &mut Vec<AccountHandle>,
        amount: u64,
        exemption: Option<bool>,
        program_id: &Vec<u8>,
        token_service_identity: &Vec<u8>,
        seed: &[u8],
    ) -> (r: Result<AuthorityChangeRequest, EscrowError>)
        requires
            old(accounts)@.len() >= 6,
            accounts_wf(old(accounts)@),
            program_id@.len() == IDENTITY_LEN,
            token_service_identity@.len() == IDENTITY_LEN,
        ensures
            final(accounts)@.len() == old(accounts)@.len(),
            forall|i: int|
                0 <= i < old(accounts)@.len() && i != 3 ==> final(accounts)@[i] == old(
                    accounts,
                )@[i],
            r is Err ==> final(accounts)@ == old(accounts)@,
            r == Err::<AuthorityChangeRequest, EscrowError>(EscrowError::MissingRequiredSignature)
                <==> !spec_signer_ok(old(accounts)@),
            r == Err::<AuthorityChangeRequest, EscrowError>(EscrowError::IncorrectProgramId)
                <==> spec_signer_ok(old(accounts)@) && !spec_service_ok(
                old(accounts)@,
                token_service_identity@,
            ),
            r == Err::<AuthorityChangeRequest, EscrowError>(EscrowError::NotRentExempt) <==> (
            spec_signer_ok(old(accounts)@) && spec_service_ok(
                old(accounts)@,
                token_service_identity@,
            ) && exemption == Some(false)),
            r == Err::<AuthorityChangeRequest, EscrowError>(EscrowError::InvalidAccountData) <==> (
            spec_signer_ok(old(accounts)@) && spec_service_ok(
                old(accounts)@,
                token_service_identity@,
            ) && (exemption is None || (exemption == Some(true) && !spec_slot_ready(
                old(accounts)@,
            )))),
            r == Err::<AuthorityChangeRequest, EscrowError>(EscrowError::AccountAlreadyInitialized)
                <==> (spec_signer_ok(old(accounts)@) && spec_service_ok(
                old(accounts)@,
                token_service_identity@,
            ) && exemption == Some(true) && spec_slot_ready(old(accounts)@)
                && spec_slot_initialized(old(accounts)@)),
            r == Err::<AuthorityChangeRequest, EscrowError>(EscrowError::AuthorityUnavailable)
                ==> spec_preconditions_met(old(accounts)@, token_service_identity@, exemption),
            spec_preconditions_met(old(accounts)@, token_service_identity@, exemption) ==> r is Ok
                || r == Err::<AuthorityChangeRequest, EscrowError>(
                EscrowError::AuthorityUnavailable,
            ),
            spec_slot_ready(old(accounts)@) && spec_slot_initialized(old(accounts)@) ==> r is Err,
            r matches Err(e) ==> e != EscrowError::InvalidInstruction && !(e is External),
            r is Ok ==> spec_preconditions_met(old(accounts)@, token_service_identity@, exemption),
            r is Ok ==> ({
                let written = final(accounts)@[3].data@;
                let before = old(accounts)@[3].data@;
                let rec = spec_new_record(old(accounts)@, amount);
                &&& final(accounts)@[3].identity@ == old(accounts)@[3].identity@
                &&& final(accounts)@[3].lamports == old(accounts)@[3].lamports
                &&& final(accounts)@[3].is_signer == old(accounts)@[3].is_signer
                &&& written.len() == before.len()
                &&& written.subrange(0, RECORD_LEN as int) == rec.spec_encoding()
                &&& written.subrange(RECORD_LEN as int, written.len() as int) == before.subrange(
                    RECORD_LEN as int,
                    before.len() as int,
                )
            }),
            r matches Ok(req) ==> req.wf() && req.token_service@ == old(accounts)@[5].identity@
                && req.target@ == old(accounts)@[1].identity@ && req.current_authorizer@ == old(
                accounts,
            )@[0].identity@ && req.new_authority@ == derived_authority_of(seed@, program_id@),
    {
        let derived = derive_authority(seed, program_id);
        let r = Self::apply_init_escrow(accounts, amount, exemption, derived, token_service_identity);
        proof {
            // Pin down which error each failing case carries, so that the
            // variants this function never reports are visibly excluded.
            let a = old(accounts)@;
            let svc = token_service_identity@;
            if r is Err {
                if !spec_signer_ok(a) {
                    assert(r == Err::<AuthorityChangeRequest, EscrowError>(
                        EscrowError::MissingRequiredSignature,
                    ));
                } else if !spec_service_ok(a, svc) {
                    assert(r == Err::<AuthorityChangeRequest, EscrowError>(
                        EscrowError::IncorrectProgramId,
                    ));
                } else {
                    match exemption {
                        None => {
                            assert(r == Err::<AuthorityChangeRequest, EscrowError>(
                                EscrowError::InvalidAccountData,
                            ));
                        },
                        Some(false) => {
                            assert(r == Err::<AuthorityChangeRequest, EscrowError>(
                                EscrowError::NotRentExempt,
                            ));
                        },
                        Some(true) => {
                            if !spec_slot_ready(a) {
                                assert(r == Err::<AuthorityChangeRequest, EscrowError>(
                                    EscrowError::InvalidAccountData,
                                ));
                            } else if spec_slot_initialized(a) {
                                assert(r == Err::<AuthorityChangeRequest, EscrowError>(
                                    EscrowError::AccountAlreadyInitialized,
                                ));
                            } else {
                                assert(r == Err::<AuthorityChangeRequest, EscrowError>(
                                    EscrowError::AuthorityUnavailable,
                                ));
                            }
                        },
                    }
                }
            }
        }
        r
    }

    /// The validated initialization transition, with the host's two
    /// answers — whether the storage slot's balance is rent-exempt
    /// (`None` when the rent sysvar could not be read) and the derived
    /// authority (`None` when the host found none) — supplied as plain
    /// values.
    ///
    /// Validation order, each step failing fast: initializer
    /// authorization, token-service identity of the receiving-account
    /// descriptor, rent exemption, lenient decode of the slot, the
    /// already-initialized guard. Only then is the record written and
    /// the custody-change request built. No failure mutates anything.
    pub fn apply_init_escrow(
        accounts: &mut Vec<AccountHandle>,
        amount: u64,
        exemption: Option<bool>,
        derived: Option<Vec<u8>>,
        token_service_identity: &Vec<u8>,
    ) -> (r: Result<AuthorityChangeRequest, EscrowError>)
        requires
            old(accounts)@.len() >= 6,
            accounts_wf(old(accounts)@),
            token_service_identity@.len() == IDENTITY_LEN,
            derived matches Some(d) ==> d@.len() == IDENTITY_LEN,
        ensures
            final(accounts)@.len() == old(accounts)@.len(),
            forall|i: int|
                0 <= i < old(accounts)@.len() && i != 3 ==> final(accounts)@[i] == old(
                    accounts,
                )@[i],
            r is Err ==> final(accounts)@ == old(accounts)@,
            r == Err::<AuthorityChangeRequest, EscrowError>(EscrowError::MissingRequiredSignature)
                <==> !spec_signer_ok(old(accounts)@),
            r == Err::<AuthorityChangeRequest, EscrowError>(EscrowError::IncorrectProgramId)
                <==> spec_signer_ok(old(accounts)@) && !spec_service_ok(
                old(accounts)@,
                token_service_identity@,
            ),
            r == Err::<AuthorityChangeRequest, EscrowError>(EscrowError::NotRentExempt) <==> (
            spec_signer_ok(old(accounts)@) && spec_service_ok(
                old(accounts)@,
                token_service_identity@,
            ) && exemption == Some(false)),
            r == Err::<AuthorityChangeRequest, EscrowError>(EscrowError::InvalidAccountData) <==> (
            spec_signer_ok(old(accounts)@) && spec_service_ok(
                old(accounts)@,
                token_service_identity@,
            ) && (exemption is None || (exemption == Some(true) && !spec_slot_ready(
                old(accounts)@,
            )))),
            r == Err::<AuthorityChangeRequest, EscrowError>(EscrowError::AccountAlreadyInitialized)
                <==> (spec_signer_ok(old(accounts)@) && spec_service_ok(
                old(accounts)@,
                token_service_identity@,
            ) && exemption == Some(true) && spec_slot_ready(old(accounts)@)
                && spec_slot_initialized(old(accounts)@)),
            r == Err::<AuthorityChangeRequest, EscrowError>(EscrowError::AuthorityUnavailable)
                <==> (spec_signer_ok(old(accounts)@) && spec_service_ok(
                old(accounts)@,
                token_service_identity@,
            ) && exemption == Some(true) && spec_slot_ready(old(accounts)@)
                && !spec_slot_initialized(old(accounts)@) && derived is None),
            r is Ok <==> (spec_signer_ok(old(accounts)@) && spec_service_ok(
                old(accounts)@,
                token_service_identity@,
            ) && exemption == Some(true) && spec_slot_ready(old(accounts)@)
                && !spec_slot_initialized(old(accounts)@) && derived is Some),
            r is Ok ==> ({
                let written = final(accounts)@[3].data@;
                let before = old(accounts)@[3].data@;
                let rec = spec_new_record(old(accounts)@, amount);
                &&& final(accounts)@[3].identity@ == old(accounts)@[3].identity@
                &&& final(accounts)@[3].lamports == old(accounts)@[3].lamports
                &&& final(accounts)@[3].is_signer == old(accounts)@[3].is_signer
                &&& written.len() == before.len()
                &&& written.subrange(0, RECORD_LEN as int) == rec.spec_encoding()
                &&& written.subrange(RECORD_LEN as int, written.len() as int) == before.subrange(
                    RECORD_LEN as int,
                    before.len() as int,
                )
            }),
            r matches Ok(req) ==> req.wf() && req.token_service@ == old(accounts)@[5].identity@
                && req.target@ == old(accounts)@[1].identity@ && req.current_authorizer@ == old(
                accounts,
            )@[0].identity@ && (derived matches Some(d) && req.new_authority@ == d@),
    {
        if !accounts[0].is_signer {
            return Err(EscrowError::MissingRequiredSignature);
        }
        if !eq_bytes(&accounts[2].identity, token_service_identity) {
            return Err(EscrowError::IncorrectProgramId);
        }
        match exemption {
            None => {
                return Err(EscrowError::InvalidAccountData);
            },
            Some(false) => {
                return Err(EscrowError::NotRentExempt);
            },
            Some(true) => {},
        }
        let current = match Escrow::unpack_unchecked_from_slice(accounts[3].data.as_slice()) {
            Ok(current) => current,
            Err(e) => {
                return Err(e);
            },
        };
        if current.is_initialized() {
            return Err(EscrowError::AccountAlreadyInitialized);
        }
        let new_authority = match derived {
            None => {
                return Err(EscrowError::AuthorityUnavailable);
            },
            Some(d) => d,
        };
        proof {
            assert(old(accounts)@[0].wf());
            assert(old(accounts)@[1].wf());
            assert(old(accounts)@[2].wf());
        }
        let request = AuthorityChangeRequest {
            token_service: clone_bytes(&accounts[5].identity),
            target: clone_bytes(&accounts[1].identity),
            new_authority,
            current_authorizer: clone_bytes(&accounts[0].identity),
        };
        let record = Escrow {
            is_initialized: true,
            initializer_pubkey: clone_bytes(&accounts[0].identity),
            temp_token_account_pubkey: clone_bytes(&accounts[1].identity),
            initializer_token_to_receive_account_pubkey: clone_bytes(&accounts[2].identity),
            expected_amount: amount,
        };
        let mut data = clone_bytes(&accounts[3].data);
        record.pack_into_slice(&mut data);
        let slot = AccountHandle {
            identity: clone_bytes(&accounts[3].identity),
            lamports: accounts[3].lamports,
            is_signer: accounts[3].is_signer,
            data,
        };
        accounts[3] = slot;
        Ok(request)
    }
}

/// Turns a custody-change request into the token service's own
/// instruction form, ready to be invoked. It succeeds exactly when the
/// request names the token service's real identity; the builder's one
/// failure is carried through unchanged as [`EscrowError::External`]
/// with the host's incorrect-program-identity encoding.
pub fn custody_change_instruction(req: &AuthorityChangeRequest) -> (r: Result<
    solana_program::instruction::Instruction,
    EscrowError,
>)
    requires
        req.wf(),
    ensures
        r is Ok <==> is_token_service_id(req.token_service@),
        r matches Err(e) ==> e == EscrowError::External(INCORRECT_PROGRAM_ID_CODE),
{
    match set_authority_instruction(
        &req.token_service,
        &req.target,
        &req.new_authority,
        &req.current_authorizer,
    ) {
        Ok(ix) => Ok(ix),
        Err(code) => Err(EscrowError::External(code)),
    }
}

} // verus!
