//! InstructionRouter: decodes the incoming instruction, validates the
//! caller-supplied derived address against a fresh derivation, and plans
//! exactly one of the four operations.
//!
//! The router is pure: it returns the operation the host environment must
//! perform — an allocation of backing storage, or a delegated invocation —
//! rather than performing it. Every failure aborts the whole invocation
//! before any operation is planned.
//!
//! Positional account lists: provisions take
//! [owner, derived address, target program, allocation capability];
//! updates take [owner, derived address, target program].

use vstd::prelude::*;
use crate::addressing::{spec_derive, verify, Domain, IDENTITY_LEN};
use crate::codec::{
    decode, spec_decode, spec_encode, spec_profile_payload, AddressInstructionData,
    InstructionData, InstructionView, UserProfileInstructionData, ADDRESS_RECORD_SIZE,
    PROFILE_RECORD_SIZE,
};
use crate::codec::lemma_codec_round_trip;
use crate::delegation::{
    build_update_invocation, refs_view, spec_update_invocation, AccountRefView, AccountReference,
    AuthorityProof, AuthorityProofView, DelegatedInvocation, InvocationView,
};
use crate::errors::CoreError;

verus! {

/// The number of positional accounts a provision operation names.
pub const PROVISION_ACCOUNTS: usize = 4;

/// The number of positional accounts an update operation names.
pub const UPDATE_ACCOUNTS: usize = 3;

/// The one operation a routed invocation asks the host environment to
/// perform.
#[derive(Clone, Debug)]
pub enum PlannedOperation {
    /// Create the backing record account: at `address`, sized `space`,
    /// funded by `funder` to the host's minimum reserve for that size,
    /// owned by `owner_program`, authorized by the seed proof.
    Allocate {
        funder: Vec<u8>,
        address: Vec<u8>,
        owner_program: Vec<u8>,
        space: u64,
        authority: AuthorityProof,
    },
    /// Forward the built sub-operation to its target program.
    Delegate { invocation: DelegatedInvocation },
}

/// Mathematical model of a planned operation.
pub ghost enum PlannedOperationView {
    Allocate {
        funder: Seq<u8>,
        address: Seq<u8>,
        owner_program: Seq<u8>,
        space: u64,
        authority: AuthorityProofView,
    },
    Delegate { invocation: InvocationView },
}

impl View for PlannedOperation {
    type V = PlannedOperationView;

    open spec fn view(&self) -> PlannedOperationView {
        match self {
            PlannedOperation::Allocate { funder, address, owner_program, space, authority } => {
                PlannedOperationView::Allocate {
                    funder: funder@,
                    address: address@,
                    owner_program: owner_program@,
                    space: *space,
                    authority: authority@,
                }
            },
            PlannedOperation::Delegate { invocation } => {
                PlannedOperationView::Delegate { invocation: invocation@ }
            },
        }
    }
}

/// The domain a decoded instruction operates in.
pub open spec fn domain_of(v: InstructionView) -> Domain {
    match v {
        InstructionView::UpdateAddressRecord { .. } => Domain::Address,
        InstructionView::ProvisionAddressRecord => Domain::Address,
        InstructionView::ProvisionProfileRecord => Domain::Profile,
        InstructionView::UpdateProfileRecord { .. } => Domain::Profile,
    }
}

/// The outcome of a provision operation: derive and verify the address,
/// then plan an allocation of the domain's record size at that address,
/// owned by the target program and authorized by the seed proof.
pub open spec fn spec_provision(
    program: Seq<u8>,
    accts: Seq<AccountRefView>,
    d: Domain,
    space: u64,
) -> Result<PlannedOperationView, CoreError> {
    if accts.len() < PROVISION_ACCOUNTS {
        Err(CoreError::MissingAccountError)
    } else {
        let owner = accts[0].identity;
        let supplied = accts[1].identity;
        let target = accts[2].identity;
        match spec_derive(owner, d, program) {
            Option::None => Err(CoreError::DerivationError),
            Option::Some(p) => if p.0 != supplied {
                Err(CoreError::AddressMismatchError)
            } else {
                Ok(
                    PlannedOperationView::Allocate {
                        funder: owner,
                        address: supplied,
                        owner_program: target,
                        space,
                        authority: AuthorityProofView { owner, domain: d, nonce: p.1 },
                    },
                )
            },
        }
    }
}

/// The outcome of an update operation: derive and verify the address, then
/// plan a delegated invocation of the target program with the derived
/// address as the sole account, a writable signer, carrying the payload.
pub open spec fn spec_update(
    program: Seq<u8>,
    accts: Seq<AccountRefView>,
    d: Domain,
    payload: Seq<u8>,
) -> Result<PlannedOperationView, CoreError> {
    if accts.len() < UPDATE_ACCOUNTS {
        Err(CoreError::MissingAccountError)
    } else {
        let owner = accts[0].identity;
        let supplied = accts[1].identity;
        let target = accts[2].identity;
        match spec_derive(owner, d, program) {
            Option::None => Err(CoreError::DerivationError),
            Option::Some(p) => if p.0 != supplied {
                Err(CoreError::AddressMismatchError)
            } else {
                Ok(
                    PlannedOperationView::Delegate {
                        invocation: spec_update_invocation(
                            target,
                            supplied,
                            payload,
                            AuthorityProofView { owner, domain: d, nonce: p.1 },
                        ),
                    },
                )
            },
        }
    }
}

/// The outcome of a whole invocation: decode, then the decoded variant's
/// operation over the positional account list.
pub open spec fn spec_route(program: Seq<u8>, accts: Seq<AccountRefView>, data: Seq<u8>) -> Result<
    PlannedOperationView,
    CoreError,
> {
    match spec_decode(data) {
        Option::None => Err(CoreError::DecodeError),
        Option::Some(v) => match v {
            InstructionView::ProvisionAddressRecord => spec_provision(
                program,
                accts,
                Domain::Address,
                ADDRESS_RECORD_SIZE,
            ),
            InstructionView::ProvisionProfileRecord => spec_provision(
                program,
                accts,
                Domain::Profile,
                PROFILE_RECORD_SIZE,
            ),
            InstructionView::UpdateAddressRecord { address } => spec_update(
                program,
                accts,
                Domain::Address,
                address,
            ),
            InstructionView::UpdateProfileRecord { name, day, month, year } => spec_update(
                program,
                accts,
                Domain::Profile,
                spec_profile_payload(name, day, month, year),
            ),
        },
    }
}

/// Plans the provision of the domain's record for the owner at position 0,
/// at the derived address the caller supplied at position 1, owned by the
/// target program at position 2.
pub fn handle_provision(
    program_id: &[u8],
    accounts: &[AccountReference],
    d: Domain,
    space: u64,
) -> (r: Result<PlannedOperation, CoreError>)
    requires
        program_id@.len() == IDENTITY_LEN,
        forall|k: int| 0 <= k < accounts@.len() ==> (#[trigger] accounts@[k]).wf(),
    ensures
        r matches Ok(op) ==> spec_provision(program_id@, refs_view(accounts@), d, space)
            == Ok::<PlannedOperationView, CoreError>(op@),
        r matches Err(e) ==> spec_provision(program_id@, refs_view(accounts@), d, space)
            == Err::<PlannedOperationView, CoreError>(e),
{
    if accounts.len() < PROVISION_ACCOUNTS {
        return Err(CoreError::MissingAccountError);
    }
    let owner = vstd::slice::slice_index_get(accounts, 0);
    let supplied = vstd::slice::slice_index_get(accounts, 1);
    let target = vstd::slice::slice_index_get(accounts, 2);
    let nonce = match verify(supplied.identity.as_slice(), owner.identity.as_slice(), d, program_id) {
        Ok(nonce) => nonce,
        Err(e) => {
            return Err(e);
        },
    };
    Ok(
        PlannedOperation::Allocate {
            funder: vstd::slice::slice_to_vec(owner.identity.as_slice()),
            address: vstd::slice::slice_to_vec(supplied.identity.as_slice()),
            owner_program: vstd::slice::slice_to_vec(target.identity.as_slice()),
            space,
            authority: AuthorityProof {
                owner: vstd::slice::slice_to_vec(owner.identity.as_slice()),
                domain: d,
                nonce,
            },
        },
    )
}

/// Plans the delegated update of the domain's record: the owner at position
/// 0, the caller-supplied derived address at position 1, the target program
/// at position 2, forwarding the given payload.
pub fn handle_update(
    program_id: &[u8],
    accounts: &[AccountReference],
    d: Domain,
    payload: Vec<u8>,
) -> (r: Result<PlannedOperation, CoreError>)
    requires
        program_id@.len() == IDENTITY_LEN,
        forall|k: int| 0 <= k < accounts@.len() ==> (#[trigger] accounts@[k]).wf(),
    ensures
        r matches Ok(op) ==> spec_update(program_id@, refs_view(accounts@), d, payload@)
            == Ok::<PlannedOperationView, CoreError>(op@),
        r matches Err(e) ==> spec_update(program_id@, refs_view(accounts@), d, payload@)
            == Err::<PlannedOperationView, CoreError>(e),
{
    if accounts.len() < UPDATE_ACCOUNTS {
        return Err(CoreError::MissingAccountError);
    }
    let owner = vstd::slice::slice_index_get(accounts, 0);
    let supplied = vstd::slice::slice_index_get(accounts, 1);
    let target = vstd::slice::slice_index_get(accounts, 2);
    let nonce = match verify(supplied.identity.as_slice(), owner.identity.as_slice(), d, program_id) {
        Ok(nonce) => nonce,
        Err(e) => {
            return Err(e);
        },
    };
    let invocation = build_update_invocation(
        target.identity.as_slice(),
        supplied.identity.as_slice(),
        payload,
        AuthorityProof {
            owner: vstd::slice::slice_to_vec(owner.identity.as_slice()),
            domain: d,
            nonce,
        },
    );
    Ok(PlannedOperation::Delegate { invocation })
}

/// One whole invocation: decodes the instruction, verifies the
/// caller-supplied derived address against a fresh derivation, and plans
/// exactly one operation — or aborts with the first error, planning
/// nothing.
pub fn process_instruction(
    program_id: &[u8],
    accounts: &[AccountReference],
    instruction_data: &[u8],
) -> (r: Result<PlannedOperation, CoreError>)
    requires
        program_id@.len() == IDENTITY_LEN,
        forall|k: int| 0 <= k < accounts@.len() ==> (#[trigger] accounts@[k]).wf(),
    ensures
        r matches Ok(op) ==> spec_route(program_id@, refs_view(accounts@), instruction_data@)
            == Ok::<PlannedOperationView, CoreError>(op@),
        r matches Err(e) ==> spec_route(program_id@, refs_view(accounts@), instruction_data@)
            == Err::<PlannedOperationView, CoreError>(e),
{
    let instruction = match decode(instruction_data) {
        Ok(i) => i,
        Err(e) => {
            return Err(e);
        },
    };
    match instruction {
        InstructionData::ProvisionAddressRecord => handle_provision(
            program_id,
            accounts,
            Domain::Address,
            ADDRESS_RECORD_SIZE,
        ),
        InstructionData::ProvisionProfileRecord => handle_provision(
            program_id,
            accounts,
            Domain::Profile,
            PROFILE_RECORD_SIZE,
        ),
        InstructionData::UpdateAddressRecord { address } => {
            let payload = AddressInstructionData { address }.encode();
            handle_update(program_id, accounts, Domain::Address, payload)
        },
        InstructionData::UpdateProfileRecord { name, day, month, year } => {
            let payload = UserProfileInstructionData { name, day, month, year }.encode();
            handle_update(program_id, accounts, Domain::Profile, payload)
        },
    }
}

/// Idempotent-address law: two provisions for the same owner, domain and
/// program plan their allocation at the identical address; whether the
/// second allocation is refused because the address already exists is the
/// allocation layer's responsibility.
pub proof fn lemma_provision_address_stable(
    program: Seq<u8>,
    accts1: Seq<AccountRefView>,
    accts2: Seq<AccountRefView>,
    d: Domain,
    space: u64,
    op1: PlannedOperationView,
    op2: PlannedOperationView,
)
    requires
        accts1[0].identity == accts2[0].identity,
        spec_provision(program, accts1, d, space) == Ok::<PlannedOperationView, CoreError>(op1),
        spec_provision(program, accts2, d, space) == Ok::<PlannedOperationView, CoreError>(op2),
    ensures
        op1 matches PlannedOperationView::Allocate { address: a1, .. } && op2
            matches PlannedOperationView::Allocate { address: a2, .. } && a1 == a2,
{
}

/// Repeatability law: the payload an update-profile invocation forwards is
/// exactly the encoding of that invocation's own field values — a later
/// call with new values forwards the new values, untouched by any earlier
/// call.
pub proof fn lemma_update_payload_reflects_call(
    program: Seq<u8>,
    accts: Seq<AccountRefView>,
    name: Seq<u8>,
    day: u32,
    month: u32,
    year: u32,
    op: PlannedOperationView,
)
    requires
        name.len() == 64,
        spec_route(
            program,
            accts,
            spec_encode(InstructionView::UpdateProfileRecord { name, day, month, year }),
        ) == Ok::<PlannedOperationView, CoreError>(op),
    ensures
        op matches PlannedOperationView::Delegate { invocation } && invocation.payload
            == spec_profile_payload(name, day, month, year),
{
    lemma_codec_round_trip(InstructionView::UpdateProfileRecord { name, day, month, year });
}

/// Mismatch law: when the canonical derivation exists and the
/// caller-supplied address at position 1 differs from it, the whole
/// invocation aborts with `AddressMismatchError` — no allocation and no
/// forwarding is planned.
pub proof fn lemma_mismatch_aborts(program: Seq<u8>, accts: Seq<AccountRefView>, data: Seq<u8>)
    requires
        spec_decode(data) is Some,
        accts.len() >= PROVISION_ACCOUNTS,
        spec_derive(accts[0].identity, domain_of(spec_decode(data)->Some_0), program)
            matches Some(p) && p.0 != accts[1].identity,
    ensures
        spec_route(program, accts, data) == Err::<PlannedOperationView, CoreError>(
            CoreError::AddressMismatchError,
        ),
{
}

} // verus!
