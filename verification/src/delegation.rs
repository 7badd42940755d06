//! DelegatedInvoker: builds the sub-operation a handler forwards to a
//! downstream record program, together with the seed-based authority proof
//! for the derived address.
//!
//! The coordinator holds no private key for a derived address; the proof is
//! the exact seed triple (owner identity, domain tag, nonce), and the host's
//! invocation layer accepts it only when those seeds reproduce the address.
//! Executing the built sub-operation is the host environment's part, outside
//! this library.

use vstd::prelude::*;
use crate::addressing::Domain;

verus! {

/// One account a delegated invocation touches, with its capabilities.
#[derive(Clone, Debug)]
pub struct AccountReference {
    pub identity: Vec<u8>,
    pub is_signer: bool,
    pub is_writable: bool,
}

/// Mathematical model of an account reference.
pub ghost struct AccountRefView {
    pub identity: Seq<u8>,
    pub is_signer: bool,
    pub is_writable: bool,
}

impl View for AccountReference {
    type V = AccountRefView;

    open spec fn view(&self) -> AccountRefView {
        AccountRefView {
            identity: self.identity@,
            is_signer: self.is_signer,
            is_writable: self.is_writable,
        }
    }
}

impl AccountReference {
    /// The identity is a full-width account identity.
    pub open spec fn wf(&self) -> bool {
        self.identity@.len() == crate::addressing::IDENTITY_LEN
    }
}

/// The models of a list of account references, in order.
pub open spec fn refs_view(s: Seq<AccountReference>) -> Seq<AccountRefView> {
    Seq::new(s.len(), |i: int| s[i]@)
}

/// The seed triple that proves authority over a derived address: presented
/// by value to the invocation layer, never held as ambient signing state.
#[derive(Clone, Debug)]
pub struct AuthorityProof {
    pub owner: Vec<u8>,
    pub domain: Domain,
    pub nonce: u8,
}

/// Mathematical model of an authority proof.
pub ghost struct AuthorityProofView {
    pub owner: Seq<u8>,
    pub domain: Domain,
    pub nonce: u8,
}

impl View for AuthorityProof {
    type V = AuthorityProofView;

    open spec fn view(&self) -> AuthorityProofView {
        AuthorityProofView { owner: self.owner@, domain: self.domain, nonce: self.nonce }
    }
}

/// A fully built sub-operation addressed to a target program: the accounts
/// it touches, its payload bytes, and the authority proof under which the
/// host signs for the derived address.
#[derive(Clone, Debug)]
pub struct DelegatedInvocation {
    pub target_program: Vec<u8>,
    pub accounts: Vec<AccountReference>,
    pub payload: Vec<u8>,
    pub authority: AuthorityProof,
}

/// Mathematical model of a delegated invocation.
pub ghost struct InvocationView {
    pub target_program: Seq<u8>,
    pub accounts: Seq<AccountRefView>,
    pub payload: Seq<u8>,
    pub authority: AuthorityProofView,
}

impl View for DelegatedInvocation {
    type V = InvocationView;

    open spec fn view(&self) -> InvocationView {
        InvocationView {
            target_program: self.target_program@,
            accounts: refs_view(self.accounts@),
            payload: self.payload@,
            authority: self.authority@,
        }
    }
}

/// The single-account invocation an update operation forwards: the derived
/// address, marked signer and writable, with the given payload and proof.
pub open spec fn spec_update_invocation(
    target_program: Seq<u8>,
    derived_address: Seq<u8>,
    payload: Seq<u8>,
    authority: AuthorityProofView,
) -> InvocationView {
    InvocationView {
        target_program,
        accounts: seq![
            AccountRefView { identity: derived_address, is_signer: true, is_writable: true },
        ],
        payload,
        authority,
    }
}

/// Builds the sub-operation of an update: exactly one account reference,
/// the derived address as a writable signer, carrying the encoded payload.
pub fn build_update_invocation(
    target_program: &[u8],
    derived_address: &[u8],
    payload: Vec<u8>,
    authority: AuthorityProof,
) -> (r: DelegatedInvocation)
    ensures
        r@ == spec_update_invocation(target_program@, derived_address@, payload@, authority@),
{
    let mut accounts: Vec<AccountReference> = Vec::new();
    accounts.push(
        AccountReference {
            identity: vstd::slice::slice_to_vec(derived_address),
            is_signer: true,
            is_writable: true,
        },
    );
    let r = DelegatedInvocation {
        target_program: vstd::slice::slice_to_vec(target_program),
        accounts,
        payload,
        authority,
    };
    assert(refs_view(r.accounts@) =~= spec_update_invocation(
        target_program@,
        derived_address@,
        payload@,
        authority@,
    ).accounts);
    r
}

} // verus!
