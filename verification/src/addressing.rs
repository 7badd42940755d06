//! AddressDeriver: deterministic mapping from (owner identity, domain tag)
//! to a derived account address plus its disambiguation nonce, and
//! re-derivation for verifying a caller-supplied address.
//!
//! The derivation also depends on the coordinating program's own identity,
//! fixed at deployment. A derived address has no private key; authority over
//! it is proven by re-supplying the exact seed material (domain tag, owner
//! identity, nonce).

use vstd::prelude::*;
use crate::errors::CoreError;

verus! {

/// Length in bytes of an account identity on the ledger.
pub const IDENTITY_LEN: usize = 32;

/// The two record categories this coordinator derives addresses for.
#[derive(Clone, Copy, Debug, PartialEq, Eq, Structural)]
pub enum Domain {
    /// Address records, seeded by the constant tag "address".
    Address,
    /// Profile records, seeded by the constant tag "profile".
    Profile,
}

/// The fixed seed constant of each domain: the ASCII bytes of "address"
/// or of "profile".
pub open spec fn domain_seed(d: Domain) -> Seq<u8> {
    match d {
        Domain::Address => seq![97u8, 100u8, 100u8, 114u8, 101u8, 115u8, 115u8],
        Domain::Profile => seq![112u8, 114u8, 111u8, 102u8, 105u8, 108u8, 101u8],
    }
}

/// The seed constant of a domain as bytes.
pub fn domain_seed_bytes(d: Domain) -> (r: Vec<u8>)
    ensures
        r@ == domain_seed(d),
        r@.len() == 7,
{
    let mut out: Vec<u8> = Vec::new();
    match d {
        Domain::Address => {
            out.push(97);
            out.push(100);
            out.push(100);
            out.push(114);
            out.push(101);
            out.push(115);
            out.push(115);
        },
        Domain::Profile => {
            out.push(112);
            out.push(114);
            out.push(111);
            out.push(102);
            out.push(105);
            out.push(108);
            out.push(101);
        },
    }
    assert(out@ =~= domain_seed(d));
    out
}

/// The canonical derived address and nonce for the seed pair
/// (tag, owner) under a given program identity, if one is discoverable.
/// The derivation is a pure function of its three byte-string arguments:
/// the same inputs always name the same address, in every process and on
/// every machine.
pub uninterp spec fn pda_of(tag: Seq<u8>, owner: Seq<u8>, program: Seq<u8>) -> Option<
    (Seq<u8>, u8),
>;

/// Relies on `Pubkey::try_find_program_address` of the solana-pubkey crate:
/// a deterministic nonce search over the seed list [tag, owner] under the
/// given program identity, returning a 32-byte off-curve address and the
/// nonce, or nothing in the statistically improbable event that no nonce
/// works. Its result is a function of the seeds and the program identity
/// alone.
#[verifier::external_body]
fn pda_lookup(tag: &[u8], owner: &[u8], program: &[u8]) -> (r: Option<(Vec<u8>, u8)>)
    requires
        tag@.len() <= 32,
        owner@.len() <= 32,
        program@.len() == 32,
    ensures
        r is Some <==> pda_of(tag@, owner@, program@) is Some,
        r matches Some(p) ==> pda_of(tag@, owner@, program@) matches Some(q) && p.0@ == q.0 && p.1
            == q.1,
        r matches Some(p) ==> p.0@.len() == 32,
{
    let program_id = solana_pubkey::Pubkey::try_from(program).unwrap();
    solana_pubkey::Pubkey::try_find_program_address(&[tag, owner], &program_id).map(
        |(key, nonce)| (key.to_bytes().to_vec(), nonce),
    )
}

/// The derived address and nonce of (owner, domain) under a program.
pub open spec fn spec_derive(owner: Seq<u8>, d: Domain, program: Seq<u8>) -> Option<(Seq<u8>, u8)> {
    pda_of(domain_seed(d), owner, program)
}

/// A caller-supplied address passes verification exactly when the canonical
/// derivation exists and names that address.
pub open spec fn spec_verified(
    supplied: Seq<u8>,
    owner: Seq<u8>,
    d: Domain,
    program: Seq<u8>,
) -> bool {
    spec_derive(owner, d, program) matches Some(p) && p.0 == supplied
}

/// Derives the canonical (address, nonce) of (owner, domain) under the
/// coordinating program's identity; fails with `DerivationError` exactly
/// when no canonical address is discoverable.
pub fn derive(owner: &[u8], d: Domain, program: &[u8]) -> (r: Result<(Vec<u8>, u8), CoreError>)
    requires
        owner@.len() == IDENTITY_LEN,
        program@.len() == IDENTITY_LEN,
    ensures
        r matches Ok(p) ==> spec_derive(owner@, d, program@) == Some((p.0@, p.1)) && p.0@.len()
            == 32,
        r is Err <==> spec_derive(owner@, d, program@) is None,
        r matches Err(e) ==> e == CoreError::DerivationError,
{
    let tag = domain_seed_bytes(d);
    match pda_lookup(tag.as_slice(), owner, program) {
        Some(p) => Ok(p),
        None => Err(CoreError::DerivationError),
    }
}

/// Re-derives the canonical address of (owner, domain) and compares it with
/// the caller-supplied one. Returns the nonce exactly when the supplied
/// address is the canonical one; a mismatch is a protocol violation and
/// fails with `AddressMismatchError`, an undiscoverable derivation with
/// `DerivationError`.
pub fn verify(supplied: &[u8], owner: &[u8], d: Domain, program: &[u8]) -> (r: Result<
    u8,
    CoreError,
>)
    requires
        owner@.len() == IDENTITY_LEN,
        program@.len() == IDENTITY_LEN,
    ensures
        r is Ok <==> spec_verified(supplied@, owner@, d, program@),
        r matches Ok(nonce) ==> spec_derive(owner@, d, program@) == Some((supplied@, nonce)),
        r matches Err(e) ==> e == if spec_derive(owner@, d, program@) is None {
            CoreError::DerivationError
        } else {
            CoreError::AddressMismatchError
        },
{
    match derive(owner, d, program) {
        Ok((address, nonce)) => {
            if bytes_equal(address.as_slice(), supplied) {
                Ok(nonce)
            } else {
                Err(CoreError::AddressMismatchError)
            }
        },
        Err(e) => Err(e),
    }
}

/// The derived address and nonce of an owner's address record:
/// (owner, "address") under the given program identity.
pub fn get_address_account_pda(owner: &[u8], program_id: &[u8]) -> (r: Result<
    (Vec<u8>, u8),
    CoreError,
>)
    requires
        owner@.len() == IDENTITY_LEN,
        program_id@.len() == IDENTITY_LEN,
    ensures
        r matches Ok(p) ==> spec_derive(owner@, Domain::Address, program_id@) == Some((p.0@, p.1))
            && p.0@.len() == 32,
        r is Err <==> spec_derive(owner@, Domain::Address, program_id@) is None,
        r matches Err(e) ==> e == CoreError::DerivationError,
{
    derive(owner, Domain::Address, program_id)
}

/// The derived address and nonce of an owner's profile record:
/// (owner, "profile") under the given program identity.
pub fn get_user_profile_account_pda(owner: &[u8], program_id: &[u8]) -> (r: Result<
    (Vec<u8>, u8),
    CoreError,
>)
    requires
        owner@.len() == IDENTITY_LEN,
        program_id@.len() == IDENTITY_LEN,
    ensures
        r matches Ok(p) ==> spec_derive(owner@, Domain::Profile, program_id@) == Some((p.0@, p.1))
            && p.0@.len() == 32,
        r is Err <==> spec_derive(owner@, Domain::Profile, program_id@) is None,
        r matches Err(e) ==> e == CoreError::DerivationError,
{
    derive(owner, Domain::Profile, program_id)
}

/// Byte-for-byte equality of two byte strings.
pub fn bytes_equal(a: &[u8], b: &[u8]) -> (r: bool)
    ensures
        r <==> a@ == b@,
{
    if a.len() != b.len() {
        assert(a@ != b@);
        return false;
    }
    let n = a.len();
    let mut i: usize = 0;
    while i < n
        invariant
            n == a@.len(),
            n == b@.len(),
            i <= n,
            forall|k: int| 0 <= k < i ==> a@[k] == b@[k],
        decreases n - i,
    {
        if *vstd::slice::slice_index_get(a, i) != *vstd::slice::slice_index_get(b, i) {
            assert(a@[i as int] != b@[i as int]);
            return false;
        }
        i = i + 1;
    }
    assert(a@ =~= b@);
    true
}

/// Determinism law: derivation is a function of (owner, domain, program)
/// alone; two derivations from the same inputs yield the identical
/// (address, nonce) pair.
pub proof fn lemma_derive_deterministic(
    owner: Seq<u8>,
    d: Domain,
    program: Seq<u8>,
    r1: Option<(Seq<u8>, u8)>,
    r2: Option<(Seq<u8>, u8)>,
)
    requires
        r1 == spec_derive(owner, d, program),
        r2 == spec_derive(owner, d, program),
    ensures
        r1 == r2,
{
}

/// Soundness law: any address other than the canonical derived one fails
/// verification.
pub proof fn lemma_verify_sound(supplied: Seq<u8>, owner: Seq<u8>, d: Domain, program: Seq<u8>)
    requires
        spec_derive(owner, d, program) matches Some(p) ==> p.0 != supplied,
    ensures
        !spec_verified(supplied, owner, d, program),
{
}

} // verus!
