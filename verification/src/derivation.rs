//! Deterministic address derivation.
//!
//! The Authority, the registry configuration record and the issuance signer
//! are all program-derived addresses: a deterministic function of a seed list
//! and a program identity, computed by the host runtime's derivation rule.
//! That rule is a hash-based search; its result is named by `pda_of` and
//! obtained through one trusted call into the runtime SDK.

use vstd::prelude::*;
use crate::addr::Addr;

verus! {

/// The address and witness byte that the host runtime's program-derived
/// address rule assigns to a seed list under a program identity, or `None`
/// where the search finds no witness.  The result is a function of the seeds
/// and the program identity alone.
pub uninterp spec fn pda_of(seeds: Seq<Seq<u8>>, program_id: Seq<u8>) -> Option<(Seq<u8>, u8)>;

/// The fixed label from which the Authority is derived: ASCII `"AUTH"`.
pub open spec fn auth_label() -> Seq<u8> {
    seq![65u8, 85u8, 84u8, 72u8]
}

/// The fixed label of the delegate signer required for collection-scoped
/// issuance: ASCII `"collection_cpi"`.
pub open spec fn issuance_signer_label() -> Seq<u8> {
    seq![99u8, 111u8, 108u8, 108u8, 101u8, 99u8, 116u8, 105u8, 111u8, 110u8, 95u8, 99u8, 112u8, 105u8]
}

/// The view of a derivation result.
pub open spec fn derived_view(r: Option<(Addr, u8)>) -> Option<(Seq<u8>, u8)> {
    match r {
        Some(p) => Some((p.0@, p.1)),
        None => None,
    }
}

/// The fixed Authority label as bytes.
pub fn auth_label_bytes() -> (r: Vec<u8>)
    ensures
        r@ == auth_label(),
{
    let mut v: Vec<u8> = Vec::new();
    v.push(65);
    v.push(85);
    v.push(84);
    v.push(72);
    proof {
        assert(v@ =~= auth_label());
    }
    v
}

/// The fixed issuance-signer label as bytes.
pub fn issuance_signer_label_bytes() -> (r: Vec<u8>)
    ensures
        r@ == issuance_signer_label(),
{
    let mut v: Vec<u8> = Vec::new();
    v.push(99);
    v.push(111);
    v.push(108);
    v.push(108);
    v.push(101);
    v.push(99);
    v.push(116);
    v.push(105);
    v.push(111);
    v.push(110);
    v.push(95);
    v.push(99);
    v.push(112);
    v.push(105);
    proof {
        assert(v@ =~= issuance_signer_label());
    }
    v
}

/// Relies on solana_program's `Pubkey::try_find_program_address`: the search
/// for a program-derived address and its bump seed is a pure function of the
/// seed list and the program identity, returns a 32-byte address on success,
/// and returns `None` (rather than panicking) where no bump seed works.
#[verifier::external_body]
fn try_derive(seeds: &Vec<Vec<u8>>, program_id: &Addr) -> (r: Option<(Addr, u8)>)
    requires
        program_id.wf(),
    ensures
        derived_view(r) == pda_of(seeds.deep_view(), program_id@),
        r matches Some(p) ==> p.0.wf(),
{
    let mut arr = [0u8; 32];
    arr.copy_from_slice(&program_id.bytes);
    let pid = solana_program::pubkey::Pubkey::new_from_array(arr);
    let slices: Vec<&[u8]> = seeds.iter().map(|s| s.as_slice()).collect();
    solana_program::pubkey::Pubkey::try_find_program_address(&slices, &pid)
        .map(|(pk, bump)| (Addr { bytes: pk.to_bytes().to_vec() }, bump))
}

/// Derive the Authority for a deployment: the address and witness byte that
/// the fixed label yields under the deployment's own program identity.
pub fn derive_authority(program_id: &Addr) -> (r: Option<(Addr, u8)>)
    requires
        program_id.wf(),
    ensures
        derived_view(r) == pda_of(seq![auth_label()], program_id@),
        r matches Some(p) ==> p.0.wf(),
{
    let mut seeds: Vec<Vec<u8>> = Vec::new();
    seeds.push(auth_label_bytes());
    proof {
        assert(seeds.deep_view() =~~= seq![auth_label()]);
    }
    try_derive(&seeds, program_id)
}

/// Derive the registry configuration record for a registry handle: the
/// address the handle's own bytes yield under the registry program.
pub fn derive_registry_config(handle: &Addr, registry_program: &Addr) -> (r: Option<(Addr, u8)>)
    requires
        registry_program.wf(),
    ensures
        derived_view(r) == pda_of(seq![handle@], registry_program@),
        r matches Some(p) ==> p.0.wf(),
{
    let mut seeds: Vec<Vec<u8>> = Vec::new();
    seeds.push(handle.bytes.clone());
    proof {
        assert(seeds.deep_view() =~~= seq![handle@]);
    }
    try_derive(&seeds, registry_program)
}

/// Derive the fixed delegate signer for issuance: the address the issuance
/// label yields under the registry program.
pub fn derive_issuance_signer(registry_program: &Addr) -> (r: Option<(Addr, u8)>)
    requires
        registry_program.wf(),
    ensures
        derived_view(r) == pda_of(seq![issuance_signer_label()], registry_program@),
        r matches Some(p) ==> p.0.wf(),
{
    let mut seeds: Vec<Vec<u8>> = Vec::new();
    seeds.push(issuance_signer_label_bytes());
    proof {
        assert(seeds.deep_view() =~~= seq![issuance_signer_label()]);
    }
    try_derive(&seeds, registry_program)
}

/// Law: re-deriving the Authority from the fixed label twice in the same
/// deployment yields the identical address and witness byte.  Any two results
/// that the derivation contract admits for one deployment are equal.
pub proof fn lemma_authority_derivation_idempotent(
    r1: Option<(Seq<u8>, u8)>,
    r2: Option<(Seq<u8>, u8)>,
    program_id: Seq<u8>,
)
    requires
        r1 == pda_of(seq![auth_label()], program_id),
        r2 == pda_of(seq![auth_label()], program_id),
    ensures
        r1 == r2,
{
}

} // verus!
