//! The laws that tie the three layers together: what a validated, freshly
//! assembled call guarantees once the external registry subsystem applies it.

use vstd::prelude::*;
use crate::accounts::{AnchorCreateTree, Deployment, MintCompressedNft};
use crate::derivation::{auth_label, pda_of};
use crate::invoke::{
    authority_derivation, create_call_shape, create_ok, issue_call_shape, issue_ok,
    CreateRegistryCall, IssueItemCall,
};
use crate::metadata::{issued_policy, share_sum};
use crate::store::{create_accepted, issue_accepted, Registry};

verus! {

/// Law: a creation call assembled from validated accounts is accepted by a
/// fresh registry under the named handle, and the owner it records — the
/// signing tree creator of the call — is exactly the Authority's derived
/// address.  Together with the store's contract this gives the first
/// creation: it succeeds and leaves the configuration record owned by the
/// Authority.
pub proof fn lemma_first_create_accepted_with_authority_owner(
    d: Deployment,
    a: AnchorCreateTree,
    c: CreateRegistryCall,
    s: Registry,
    max_depth: u32,
    max_buffer_size: u32,
)
    requires
        create_ok(d, a),
        create_call_shape(c, d, a, max_depth, max_buffer_size),
        s.config is None,
        s.handle@ == a.merkle_tree.address@,
    ensures
        create_accepted(s, c),
        c.accounts@[3].address@ == pda_of(seq![auth_label()], d.program_id@).unwrap().0,
        c.args.max_depth == max_depth,
        c.args.max_buffer_size == max_buffer_size,
        c.args.public == false,
{
}

/// Law: once a registry's configuration record exists, no creation call is
/// accepted against it, whatever the call holds; with the store's contract,
/// the second creation fails as a state conflict and the record's owner is
/// unchanged.
pub proof fn lemma_second_create_rejected(s: Registry, c: CreateRegistryCall)
    requires
        s.config is Some,
    ensures
        !create_accepted(s, c),
{
}

/// Law: an issuance call assembled from validated accounts is accepted only
/// where the configuration record's owner equals the Authority derived from
/// the fixed label under the deployment.  A record owned by any other
/// identity rejects the call.
pub proof fn lemma_issue_accepted_only_by_authority_owner(
    d: Deployment,
    a: MintCompressedNft,
    c: IssueItemCall,
    s: Registry,
)
    requires
        issue_ok(d, a),
        issue_call_shape(c, d, a),
        issue_accepted(s, c),
    ensures
        s.config matches Some(k) && k.owner@ == pda_of(
            seq![auth_label()],
            d.program_id@,
        ).unwrap().0,
{
}

/// Law: every item issued through a validated, freshly assembled call
/// carries exactly one creator — the Authority, verified, with share 100 —
/// zero royalty, and a membership link to the reference collection left
/// unverified whatever the collection's own status.
pub proof fn lemma_issued_item_creator_and_link(
    d: Deployment,
    a: MintCompressedNft,
    c: IssueItemCall,
)
    requires
        issue_ok(d, a),
        issue_call_shape(c, d, a),
    ensures
        issued_policy(c.metadata, a.collection_mint.address@, a.pda.address@),
        a.pda.address@ == pda_of(seq![auth_label()], d.program_id@).unwrap().0,
        c.metadata.creators@.len() == 1,
        c.metadata.creators@[0].address@ == pda_of(seq![auth_label()], d.program_id@).unwrap().0,
        c.metadata.creators@[0].verified == true,
        c.metadata.creators@[0].share == 100,
        share_sum(c.metadata.creators@) == 100,
        c.metadata.seller_fee_basis_points == 0,
        c.metadata.collection matches Some(l) && l.verified == false && l.key@
            == a.collection_mint.address@,
{
    crate::metadata::lemma_issued_share_sum(c.metadata, a.collection_mint.address@, a.pda.address@);
}

/// Law: the Authority's signing proof attached to both calls presents the
/// fixed label and the derivation's own witness byte, so the host runtime
/// re-derives the same address the validator checked.
pub proof fn lemma_signing_proof_matches_derivation(
    d: Deployment,
    a: AnchorCreateTree,
    c: CreateRegistryCall,
    max_depth: u32,
    max_buffer_size: u32,
)
    requires
        create_ok(d, a),
        create_call_shape(c, d, a, max_depth, max_buffer_size),
    ensures
        c.authority_proof.label@ == auth_label(),
        authority_derivation(d) matches Some(p) && c.authority_proof.bump == p.1
            && c.accounts@[3].address@ == p.0,
{
}

} // verus!
