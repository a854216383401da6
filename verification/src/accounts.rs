//! The accounts a caller supplies to each operation.
//!
//! Every entity the two operations touch is an account in the host runtime's
//! account space.  A supplied account carries what the validation logic reads
//! of it: its address, the kind of record it holds, and whether the caller
//! offered it as mutable or as an authorizing signer.

use vstd::prelude::*;
use crate::addr::Addr;

verus! {

/// What kind of record an account holds, as far as the operations care.
pub enum AccountKind {
    /// A plain wallet or otherwise untyped account.
    Wallet,
    /// A token mint record.
    Mint,
    /// A token metadata record.
    Metadata,
    /// A master edition record.
    Edition,
    /// Executable program code.
    Program,
}

/// One account as the caller supplied it.
pub struct SuppliedAccount {
    pub address: Addr,
    pub kind: AccountKind,
    pub writable: bool,
    pub signer: bool,
}

/// The program identities fixed for one deployment: this program's own
/// identity and the external programs the two operations call or name.
pub struct Deployment {
    /// This program's identity, under which the Authority is derived.
    pub program_id: Addr,
    /// The external registry program (owner of configuration records).
    pub registry_program: Addr,
    /// The compression engine the registry program appends through.
    pub compression_program: Addr,
    /// The event-log sink program.
    pub log_wrapper: Addr,
    /// The system allocator program.
    pub system_program: Addr,
    /// The token metadata program (owner of metadata and edition records).
    pub token_metadata_program: Addr,
}

impl Deployment {
    /// The two identities that derivations run under must be real addresses.
    pub open spec fn wf(&self) -> bool {
        &&& self.program_id.wf()
        &&& self.registry_program.wf()
    }
}

/// What the issuance logic reads from the reference collection's metadata
/// record: the display fields it copies and the mint the record belongs to.
pub struct CollectionMetadata {
    pub name: String,
    pub symbol: String,
    pub uri: String,
    /// The mint this metadata record was created for.
    pub mint: Addr,
}

/// The account set supplied to the registry-creation operation.
pub struct AnchorCreateTree {
    /// Funds the operation; must sign and be mutable.
    pub payer: SuppliedAccount,
    /// The claimed Authority; must equal the derivation from the fixed label.
    pub pda: SuppliedAccount,
    /// The registry configuration record; derived from the handle, mutable.
    pub tree_authority: SuppliedAccount,
    /// The registry handle; mutable.
    pub merkle_tree: SuppliedAccount,
    /// The event-log sink program.
    pub log_wrapper: SuppliedAccount,
    /// The system allocator program.
    pub system_program: SuppliedAccount,
    /// The external registry program.
    pub bubblegum_program: SuppliedAccount,
    /// The compression engine program.
    pub compression_program: SuppliedAccount,
}

/// The account set supplied to the item-issuance operation.
pub struct MintCompressedNft {
    /// Funds the operation and receives the issued item; must sign.
    pub payer: SuppliedAccount,
    /// The claimed Authority; must equal the derivation from the fixed label.
    pub pda: SuppliedAccount,
    /// The registry configuration record; derived from the handle, mutable.
    pub tree_authority: SuppliedAccount,
    /// The registry handle; mutable.
    pub merkle_tree: SuppliedAccount,
    /// The fixed delegate signer; derived from the issuance label.
    pub bubblegum_signer: SuppliedAccount,
    /// The event-log sink program.
    pub log_wrapper: SuppliedAccount,
    /// The compression engine program.
    pub compression_program: SuppliedAccount,
    /// The external registry program.
    pub bubblegum_program: SuppliedAccount,
    /// The token metadata program.
    pub token_metadata_program: SuppliedAccount,
    /// The system allocator program.
    pub system_program: SuppliedAccount,
    /// The reference collection's mint (read-only).
    pub collection_mint: SuppliedAccount,
    /// The reference collection's metadata record (mutable by subsystem rule).
    pub collection_metadata: SuppliedAccount,
    /// The reference collection's master edition record (read-only).
    pub edition_account: SuppliedAccount,
    /// The content of the reference collection's metadata record.
    pub collection_content: CollectionMetadata,
}

/// Why an operation was rejected before any outward call was built.
#[derive(Debug, PartialEq, Eq, Structural)]
pub enum ValError {
    /// The fixed label yields no derivation under this deployment: a fatal
    /// configuration error.
    DerivationUnavailable,
    /// A supplied address does not match its required derivation.
    DerivationMismatch,
    /// An account that must authorize the call was not offered as a signer.
    MissingSigner,
    /// An account the operation mutates was not offered as mutable.
    NotWritable,
    /// A named program identity does not match the deployment's.
    WrongProgram,
    /// A reference account does not hold a record of the expected kind.
    WrongAccountKind,
}

} // verus!
