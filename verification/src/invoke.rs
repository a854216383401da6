//! Validation and assembly of the two outward calls.
//!
//! Each public operation first holds the supplied accounts to their required
//! derivations, flags and kinds, then assembles the exact account list and
//! arguments of one call into the external registry program, signed with the
//! Authority's derivation proof.  Nothing is mutated locally: the result is
//! the call payload, ready to be issued by the surrounding runtime.

use vstd::prelude::*;
use crate::addr::{addr_eq, Addr};
use crate::accounts::{AccountKind, AnchorCreateTree, Deployment, MintCompressedNft, ValError};
use crate::derivation::{
    auth_label, auth_label_bytes, derive_authority, derive_issuance_signer,
    derive_registry_config, issuance_signer_label, pda_of,
};
use crate::metadata::{build_item_metadata, issued_policy, ItemMetadata};

verus! {

/// One entry of a call's account list: an address with the flags under which
/// it is passed to the external program.
pub struct AccountMeta {
    pub address: Addr,
    pub writable: bool,
    pub signer: bool,
}

/// The proof with which the Authority signs: the fixed label and the witness
/// byte, re-presented to the host runtime at the call site.
pub struct SignerSeeds {
    pub label: Vec<u8>,
    pub bump: u8,
}

/// The arguments of a registry-creation call.
pub struct CreateRegistryArgs {
    pub max_depth: u32,
    pub max_buffer_size: u32,
    /// Whether anyone may append; always false here: only the Authority may.
    pub public: bool,
}

/// A fully assembled registry-creation call.
pub struct CreateRegistryCall {
    pub program: Addr,
    pub accounts: Vec<AccountMeta>,
    pub args: CreateRegistryArgs,
    pub authority_proof: SignerSeeds,
}

/// A fully assembled item-issuance call.
pub struct IssueItemCall {
    pub program: Addr,
    pub accounts: Vec<AccountMeta>,
    pub metadata: ItemMetadata,
    pub authority_proof: SignerSeeds,
}

/// Whether an account-list entry carries the given address and flags.
pub open spec fn meta_is(m: AccountMeta, address: Seq<u8>, writable: bool, signer: bool) -> bool {
    &&& m.address@ == address
    &&& m.writable == writable
    &&& m.signer == signer
}

/// The Authority's derivation under a deployment.
pub open spec fn authority_derivation(d: Deployment) -> Option<(Seq<u8>, u8)> {
    pda_of(seq![auth_label()], d.program_id@)
}

/// The configuration record's derivation for a registry handle.
pub open spec fn config_derivation(d: Deployment, handle: Seq<u8>) -> Option<(Seq<u8>, u8)> {
    pda_of(seq![handle], d.registry_program@)
}

/// The issuance delegate signer's derivation under a deployment.
pub open spec fn signer_derivation(d: Deployment) -> Option<(Seq<u8>, u8)> {
    pda_of(seq![issuance_signer_label()], d.registry_program@)
}

/// Whether a signing proof presents the fixed label and the witness byte of
/// the Authority's derivation.
pub open spec fn authority_proof_ok(s: SignerSeeds, d: Deployment) -> bool {
    &&& s.label@ == auth_label()
    &&& authority_derivation(d) matches Some(p) && s.bump == p.1
}

// ---------------------------------------------------------------------------
// Registry creation
// ---------------------------------------------------------------------------

/// Both derivations the creation operation depends on exist.
pub open spec fn create_derivable(d: Deployment, a: AnchorCreateTree) -> bool {
    &&& authority_derivation(d) is Some
    &&& config_derivation(d, a.merkle_tree.address@) is Some
}

/// Each derived address the caller supplied equals its re-derivation.
pub open spec fn create_derivations_ok(d: Deployment, a: AnchorCreateTree) -> bool {
    &&& authority_derivation(d) matches Some(p) && a.pda.address@ == p.0
    &&& config_derivation(d, a.merkle_tree.address@) matches Some(q) && a.tree_authority.address@
        == q.0
}

/// The payer authorized the operation.
pub open spec fn create_signers_ok(a: AnchorCreateTree) -> bool {
    a.payer.signer
}

/// Every account the operation mutates was supplied as mutable.
pub open spec fn create_writables_ok(a: AnchorCreateTree) -> bool {
    &&& a.payer.writable
    &&& a.tree_authority.writable
    &&& a.merkle_tree.writable
}

/// Every named program identity matches the deployment's.
pub open spec fn create_programs_ok(d: Deployment, a: AnchorCreateTree) -> bool {
    &&& a.log_wrapper.address@ == d.log_wrapper@
    &&& a.system_program.address@ == d.system_program@
    &&& a.bubblegum_program.address@ == d.registry_program@
    &&& a.compression_program.address@ == d.compression_program@
}

/// Every program account holds executable program code.
pub open spec fn create_kinds_ok(a: AnchorCreateTree) -> bool {
    &&& a.log_wrapper.kind is Program
    &&& a.system_program.kind is Program
    &&& a.bubblegum_program.kind is Program
    &&& a.compression_program.kind is Program
}

/// All preconditions of the creation operation.
pub open spec fn create_ok(d: Deployment, a: AnchorCreateTree) -> bool {
    &&& create_derivable(d, a)
    &&& create_derivations_ok(d, a)
    &&& create_signers_ok(a)
    &&& create_writables_ok(a)
    &&& create_programs_ok(d, a)
    &&& create_kinds_ok(a)
}

/// The exact shape of the registry-creation call: the external registry
/// program's fixed account layout, the sizing arguments passed through
/// unchecked, the registry flagged non-public, and the Authority's proof.
pub open spec fn create_call_shape(
    c: CreateRegistryCall,
    d: Deployment,
    a: AnchorCreateTree,
    max_depth: u32,
    max_buffer_size: u32,
) -> bool {
    &&& c.program@ == d.registry_program@
    &&& c.accounts@.len() == 7
    &&& meta_is(c.accounts@[0], a.tree_authority.address@, true, false)
    &&& meta_is(c.accounts@[1], a.merkle_tree.address@, true, false)
    &&& meta_is(c.accounts@[2], a.payer.address@, true, true)
    &&& meta_is(c.accounts@[3], a.pda.address@, false, true)
    &&& meta_is(c.accounts@[4], a.log_wrapper.address@, false, false)
    &&& meta_is(c.accounts@[5], a.compression_program.address@, false, false)
    &&& meta_is(c.accounts@[6], a.system_program.address@, false, false)
    &&& c.args.max_depth == max_depth
    &&& c.args.max_buffer_size == max_buffer_size
    &&& c.args.public == false
    &&& authority_proof_ok(c.authority_proof, d)
}

/// An account-list entry for the given address and flags.
fn meta_of(address: &Addr, writable: bool, signer: bool) -> (m: AccountMeta)
    ensures
        meta_is(m, address@, writable, signer),
{
    AccountMeta { address: address.dup(), writable, signer }
}

/// Whether an account holds executable program code.
fn is_program(a: &crate::accounts::SuppliedAccount) -> (r: bool)
    ensures
        r == (a.kind is Program),
{
    match a.kind {
        AccountKind::Program => true,
        _ => false,
    }
}

/// Validate the supplied accounts and assemble the registry-creation call.
///
/// The configuration record is initialized by the external registry program
/// with the Authority as owner and the registry flagged non-public; the
/// sizing arguments are passed through unchecked, as the external subsystem
/// enforces their validity.
pub fn anchor_create_tree(
    d: &Deployment,
    a: &AnchorCreateTree,
    max_depth: u32,
    max_buffer_size: u32,
) -> (r: Result<CreateRegistryCall, ValError>)
    requires
        d.wf(),
    ensures
        r is Ok <==> create_ok(*d, *a),
        r matches Ok(c) ==> create_call_shape(c, *d, *a, max_depth, max_buffer_size),
        !create_derivable(*d, *a) ==> r == Err::<CreateRegistryCall, ValError>(
            ValError::DerivationUnavailable,
        ),
        create_derivable(*d, *a) && !create_derivations_ok(*d, *a) ==> r == Err::<
            CreateRegistryCall,
            ValError,
        >(ValError::DerivationMismatch),
        create_derivable(*d, *a) && create_derivations_ok(*d, *a) && !create_signers_ok(*a) ==> r
            == Err::<CreateRegistryCall, ValError>(ValError::MissingSigner),
        create_derivable(*d, *a) && create_derivations_ok(*d, *a) && create_signers_ok(*a)
            && !create_writables_ok(*a) ==> r == Err::<CreateRegistryCall, ValError>(
            ValError::NotWritable,
        ),
        create_derivable(*d, *a) && create_derivations_ok(*d, *a) && create_signers_ok(*a)
            && create_writables_ok(*a) && !create_programs_ok(*d, *a) ==> r == Err::<
            CreateRegistryCall,
            ValError,
        >(ValError::WrongProgram),
        create_derivable(*d, *a) && create_derivations_ok(*d, *a) && create_signers_ok(*a)
            && create_writables_ok(*a) && create_programs_ok(*d, *a) && !create_kinds_ok(*a) ==> r
            == Err::<CreateRegistryCall, ValError>(ValError::WrongAccountKind),
{
    let auth = match derive_authority(&d.program_id) {
        Some(p) => p,
        None => {
            return Err(ValError::DerivationUnavailable);
        },
    };
    let cfg = match derive_registry_config(&a.merkle_tree.address, &d.registry_program) {
        Some(p) => p,
        None => {
            return Err(ValError::DerivationUnavailable);
        },
    };
    if !addr_eq(&auth.0, &a.pda.address) || !addr_eq(&cfg.0, &a.tree_authority.address) {
        return Err(ValError::DerivationMismatch);
    }
    if !a.payer.signer {
        return Err(ValError::MissingSigner);
    }
    if !a.payer.writable || !a.tree_authority.writable || !a.merkle_tree.writable {
        return Err(ValError::NotWritable);
    }
    if !addr_eq(&a.log_wrapper.address, &d.log_wrapper) || !addr_eq(
        &a.system_program.address,
        &d.system_program,
    ) || !addr_eq(&a.bubblegum_program.address, &d.registry_program) || !addr_eq(
        &a.compression_program.address,
        &d.compression_program,
    ) {
        return Err(ValError::WrongProgram);
    }
    if !is_program(&a.log_wrapper) || !is_program(&a.system_program) || !is_program(
        &a.bubblegum_program,
    ) || !is_program(&a.compression_program) {
        return Err(ValError::WrongAccountKind);
    }
    let mut accounts: Vec<AccountMeta> = Vec::new();
    accounts.push(meta_of(&a.tree_authority.address, true, false));
    accounts.push(meta_of(&a.merkle_tree.address, true, false));
    accounts.push(meta_of(&a.payer.address, true, true));
    accounts.push(meta_of(&a.pda.address, false, true));
    accounts.push(meta_of(&a.log_wrapper.address, false, false));
    accounts.push(meta_of(&a.compression_program.address, false, false));
    accounts.push(meta_of(&a.system_program.address, false, false));
    Ok(
        CreateRegistryCall {
            program: d.registry_program.dup(),
            accounts,
            args: CreateRegistryArgs { max_depth, max_buffer_size, public: false },
            authority_proof: SignerSeeds { label: auth_label_bytes(), bump: auth.1 },
        },
    )
}

// ---------------------------------------------------------------------------
// Item issuance
// ---------------------------------------------------------------------------

/// All three derivations the issuance operation depends on exist.
pub open spec fn issue_derivable(d: Deployment, a: MintCompressedNft) -> bool {
    &&& authority_derivation(d) is Some
    &&& config_derivation(d, a.merkle_tree.address@) is Some
    &&& signer_derivation(d) is Some
}

/// Each derived address the caller supplied equals its re-derivation.
pub open spec fn issue_derivations_ok(d: Deployment, a: MintCompressedNft) -> bool {
    &&& authority_derivation(d) matches Some(p) && a.pda.address@ == p.0
    &&& config_derivation(d, a.merkle_tree.address@) matches Some(q) && a.tree_authority.address@
        == q.0
    &&& signer_derivation(d) matches Some(s) && a.bubblegum_signer.address@ == s.0
}

/// The payer authorized the operation.
pub open spec fn issue_signers_ok(a: MintCompressedNft) -> bool {
    a.payer.signer
}

/// Every account the operation mutates was supplied as mutable.  The
/// reference collection's metadata record must be mutable by subsystem rule,
/// though this call leaves its content unchanged.
pub open spec fn issue_writables_ok(a: MintCompressedNft) -> bool {
    &&& a.payer.writable
    &&& a.tree_authority.writable
    &&& a.merkle_tree.writable
    &&& a.collection_metadata.writable
}

/// Every named program identity matches the deployment's.
pub open spec fn issue_programs_ok(d: Deployment, a: MintCompressedNft) -> bool {
    &&& a.log_wrapper.address@ == d.log_wrapper@
    &&& a.system_program.address@ == d.system_program@
    &&& a.bubblegum_program.address@ == d.registry_program@
    &&& a.compression_program.address@ == d.compression_program@
    &&& a.token_metadata_program.address@ == d.token_metadata_program@
}

/// Every reference account holds a record of the expected kind, and the
/// metadata record belongs to the supplied mint.
pub open spec fn issue_kinds_ok(a: MintCompressedNft) -> bool {
    &&& a.log_wrapper.kind is Program
    &&& a.system_program.kind is Program
    &&& a.bubblegum_program.kind is Program
    &&& a.compression_program.kind is Program
    &&& a.token_metadata_program.kind is Program
    &&& a.collection_mint.kind is Mint
    &&& a.collection_metadata.kind is Metadata
    &&& a.edition_account.kind is Edition
    &&& a.collection_content.mint@ == a.collection_mint.address@
}

/// All preconditions of the issuance operation.
pub open spec fn issue_ok(d: Deployment, a: MintCompressedNft) -> bool {
    &&& issue_derivable(d, a)
    &&& issue_derivations_ok(d, a)
    &&& issue_signers_ok(a)
    &&& issue_writables_ok(a)
    &&& issue_programs_ok(d, a)
    &&& issue_kinds_ok(a)
}

/// The exact shape of the item-issuance call: the external registry
/// program's fixed account layout, the item metadata built from the
/// reference collection under the issuance policy, and the Authority's
/// proof.  Leaf owner and delegate are both the paying caller.
pub open spec fn issue_call_shape(c: IssueItemCall, d: Deployment, a: MintCompressedNft) -> bool {
    &&& c.program@ == d.registry_program@
    &&& c.accounts@.len() == 16
    &&& meta_is(c.accounts@[0], a.tree_authority.address@, true, false)
    &&& meta_is(c.accounts@[1], a.payer.address@, false, false)
    &&& meta_is(c.accounts@[2], a.payer.address@, false, false)
    &&& meta_is(c.accounts@[3], a.merkle_tree.address@, true, false)
    &&& meta_is(c.accounts@[4], a.payer.address@, false, true)
    &&& meta_is(c.accounts@[5], a.pda.address@, false, true)
    &&& meta_is(c.accounts@[6], a.pda.address@, false, true)
    &&& meta_is(c.accounts@[7], a.bubblegum_program.address@, false, false)
    &&& meta_is(c.accounts@[8], a.collection_mint.address@, false, false)
    &&& meta_is(c.accounts@[9], a.collection_metadata.address@, true, false)
    &&& meta_is(c.accounts@[10], a.edition_account.address@, false, false)
    &&& meta_is(c.accounts@[11], a.bubblegum_signer.address@, false, false)
    &&& meta_is(c.accounts@[12], a.log_wrapper.address@, false, false)
    &&& meta_is(c.accounts@[13], a.compression_program.address@, false, false)
    &&& meta_is(c.accounts@[14], a.token_metadata_program.address@, false, false)
    &&& meta_is(c.accounts@[15], a.system_program.address@, false, false)
    &&& c.metadata.name@ == a.collection_content.name@
    &&& c.metadata.symbol@ == a.collection_content.symbol@
    &&& c.metadata.uri@ == a.collection_content.uri@
    &&& issued_policy(c.metadata, a.collection_mint.address@, a.pda.address@)
    &&& authority_proof_ok(c.authority_proof, d)
}

/// Validate the supplied accounts and assemble the item-issuance call.
///
/// On success the call appends one item to the registry, owned and delegated
/// to the paying caller, whose metadata copies the reference collection's
/// display fields and carries the Authority as sole verified creator and an
/// unverified membership link to the collection.
pub fn mint_compressed_nft(d: &Deployment, a: MintCompressedNft) -> (r: Result<
    IssueItemCall,
    ValError,
>)
    requires
        d.wf(),
    ensures
        r is Ok <==> issue_ok(*d, a),
        r matches Ok(c) ==> issue_call_shape(c, *d, a),
        !issue_derivable(*d, a) ==> r == Err::<IssueItemCall, ValError>(
            ValError::DerivationUnavailable,
        ),
        issue_derivable(*d, a) && !issue_derivations_ok(*d, a) ==> r == Err::<
            IssueItemCall,
            ValError,
        >(ValError::DerivationMismatch),
        issue_derivable(*d, a) && issue_derivations_ok(*d, a) && !issue_signers_ok(a) ==> r
            == Err::<IssueItemCall, ValError>(ValError::MissingSigner),
        issue_derivable(*d, a) && issue_derivations_ok(*d, a) && issue_signers_ok(a)
            && !issue_writables_ok(a) ==> r == Err::<IssueItemCall, ValError>(
            ValError::NotWritable,
        ),
        issue_derivable(*d, a) && issue_derivations_ok(*d, a) && issue_signers_ok(a)
            && issue_writables_ok(a) && !issue_programs_ok(*d, a) ==> r == Err::<
            IssueItemCall,
            ValError,
        >(ValError::WrongProgram),
        issue_derivable(*d, a) && issue_derivations_ok(*d, a) && issue_signers_ok(a)
            && issue_writables_ok(a) && issue_programs_ok(*d, a) && !issue_kinds_ok(a) ==> r
            == Err::<IssueItemCall, ValError>(ValError::WrongAccountKind),
{
    let auth = match derive_authority(&d.program_id) {
        Some(p) => p,
        None => {
            return Err(ValError::DerivationUnavailable);
        },
    };
    let cfg = match derive_registry_config(&a.merkle_tree.address, &d.registry_program) {
        Some(p) => p,
        None => {
            return Err(ValError::DerivationUnavailable);
        },
    };
    let dsig = match derive_issuance_signer(&d.registry_program) {
        Some(p) => p,
        None => {
            return Err(ValError::DerivationUnavailable);
        },
    };
    if !addr_eq(&auth.0, &a.pda.address) || !addr_eq(&cfg.0, &a.tree_authority.address)
        || !addr_eq(&dsig.0, &a.bubblegum_signer.address) {
        return Err(ValError::DerivationMismatch);
    }
    if !a.payer.signer {
        return Err(ValError::MissingSigner);
    }
    if !a.payer.writable || !a.tree_authority.writable || !a.merkle_tree.writable
        || !a.collection_metadata.writable {
        return Err(ValError::NotWritable);
    }
    if !addr_eq(&a.log_wrapper.address, &d.log_wrapper) || !addr_eq(
        &a.system_program.address,
        &d.system_program,
    ) || !addr_eq(&a.bubblegum_program.address, &d.registry_program) || !addr_eq(
        &a.compression_program.address,
        &d.compression_program,
    ) || !addr_eq(&a.token_metadata_program.address, &d.token_metadata_program) {
        return Err(ValError::WrongProgram);
    }
    let mint_kind_ok = match a.collection_mint.kind {
        AccountKind::Mint => true,
        _ => false,
    };
    let metadata_kind_ok = match a.collection_metadata.kind {
        AccountKind::Metadata => true,
        _ => false,
    };
    let edition_kind_ok = match a.edition_account.kind {
        AccountKind::Edition => true,
        _ => false,
    };
    if !is_program(&a.log_wrapper) || !is_program(&a.system_program) || !is_program(
        &a.bubblegum_program,
    ) || !is_program(&a.compression_program) || !is_program(&a.token_metadata_program)
        || !mint_kind_ok || !metadata_kind_ok || !edition_kind_ok || !addr_eq(
        &a.collection_content.mint,
        &a.collection_mint.address,
    ) {
        return Err(ValError::WrongAccountKind);
    }
    let mut accounts: Vec<AccountMeta> = Vec::new();
    accounts.push(meta_of(&a.tree_authority.address, true, false));
    accounts.push(meta_of(&a.payer.address, false, false));
    accounts.push(meta_of(&a.payer.address, false, false));
    accounts.push(meta_of(&a.merkle_tree.address, true, false));
    accounts.push(meta_of(&a.payer.address, false, true));
    accounts.push(meta_of(&a.pda.address, false, true));
    accounts.push(meta_of(&a.pda.address, false, true));
    accounts.push(meta_of(&a.bubblegum_program.address, false, false));
    accounts.push(meta_of(&a.collection_mint.address, false, false));
    accounts.push(meta_of(&a.collection_metadata.address, true, false));
    accounts.push(meta_of(&a.edition_account.address, false, false));
    accounts.push(meta_of(&a.bubblegum_signer.address, false, false));
    accounts.push(meta_of(&a.log_wrapper.address, false, false));
    accounts.push(meta_of(&a.compression_program.address, false, false));
    accounts.push(meta_of(&a.token_metadata_program.address, false, false));
    accounts.push(meta_of(&a.system_program.address, false, false));
    let metadata = build_item_metadata(a.collection_content, &a.collection_mint.address, &a.pda.address);
    Ok(
        IssueItemCall {
            program: d.registry_program.dup(),
            accounts,
            metadata,
            authority_proof: SignerSeeds { label: auth_label_bytes(), bump: auth.1 },
        },
    )
}

} // verus!
