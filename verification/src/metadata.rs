//! The metadata carried by an issued item.
//!
//! Issuance copies the display fields of the reference collection's metadata
//! and fixes everything else by policy: an unverified membership link to the
//! collection, a single verified creator — the Authority — with the whole
//! share, and zero royalty.

use vstd::prelude::*;
use crate::addr::Addr;
use crate::accounts::CollectionMetadata;

verus! {

/// One creator entry of an item's metadata.
pub struct Creator {
    pub address: Addr,
    pub verified: bool,
    /// Share of royalties, in percent.
    pub share: u8,
}

/// A declared membership link to a collection.
pub struct CollectionLink {
    pub key: Addr,
    pub verified: bool,
}

/// The token standard an item declares.
pub enum TokenStandardKind {
    NonFungible,
    FungibleAsset,
    Fungible,
    NonFungibleEdition,
}

/// The token program generation an item declares.
pub enum TokenProgramVersionKind {
    Original,
    Token2022,
}

/// How a use-limited item may be used.
pub enum UseMethodKind {
    Burn,
    Multiple,
    Single,
}

/// A use-limit record, for items that carry one.
pub struct ItemUses {
    pub use_method: UseMethodKind,
    pub remaining: u64,
    pub total: u64,
}

/// The full metadata of an issued item.
pub struct ItemMetadata {
    pub name: String,
    pub symbol: String,
    pub uri: String,
    pub collection: Option<CollectionLink>,
    pub primary_sale_happened: bool,
    pub is_mutable: bool,
    pub edition_nonce: Option<u8>,
    pub token_standard: Option<TokenStandardKind>,
    pub uses: Option<ItemUses>,
    pub token_program_version: TokenProgramVersionKind,
    pub creators: Vec<Creator>,
    /// Royalty, in basis points.
    pub seller_fee_basis_points: u16,
}

/// The sum of the creator shares of a metadata record.
pub open spec fn share_sum(creators: Seq<Creator>) -> int
    decreases creators.len(),
{
    if creators.len() == 0 {
        0
    } else {
        share_sum(creators.drop_last()) + creators.last().share
    }
}

/// What issuance fixes by policy on every item it builds from a reference
/// collection: membership link to that collection left unverified, a single
/// verified creator — the Authority — with share 100, royalty zero, primary
/// sale recorded, mutable, non-fungible, no edition nonce and no use limit.
pub open spec fn issued_policy(m: ItemMetadata, collection_mint: Seq<u8>, authority: Seq<u8>) -> bool {
    &&& m.collection matches Some(c) && c.key@ == collection_mint && c.verified == false
    &&& m.creators@.len() == 1
    &&& m.creators@[0].address@ == authority
    &&& m.creators@[0].verified == true
    &&& m.creators@[0].share == 100
    &&& m.seller_fee_basis_points == 0
    &&& m.primary_sale_happened == true
    &&& m.is_mutable == true
    &&& m.edition_nonce is None
    &&& m.token_standard matches Some(t) && t is NonFungible
    &&& m.uses is None
    &&& m.token_program_version is Original
}

/// Build the metadata of an item issued against a reference collection.
///
/// The display fields are taken from the reference collection's metadata;
/// every other field is fixed by the issuance policy.
pub fn build_item_metadata(source: CollectionMetadata, collection_mint: &Addr, authority: &Addr)
    -> (m: ItemMetadata)
    ensures
        m.name@ == source.name@,
        m.symbol@ == source.symbol@,
        m.uri@ == source.uri@,
        issued_policy(m, collection_mint@, authority@),
        share_sum(m.creators@) == 100,
{
    let creator = Creator { address: authority.dup(), verified: true, share: 100 };
    let mut creators: Vec<Creator> = Vec::new();
    creators.push(creator);
    let m = ItemMetadata {
        name: source.name,
        symbol: source.symbol,
        uri: source.uri,
        collection: Some(CollectionLink { key: collection_mint.dup(), verified: false }),
        primary_sale_happened: true,
        is_mutable: true,
        edition_nonce: None,
        token_standard: Some(TokenStandardKind::NonFungible),
        uses: None,
        token_program_version: TokenProgramVersionKind::Original,
        creators,
        seller_fee_basis_points: 0,
    };
    proof {
        lemma_issued_share_sum(m, collection_mint@, authority@);
    }
    m
}

/// Law: a single creator holding the whole share sums to exactly 100, so
/// every item the issuance policy admits has creator-share sum exactly 100.
pub proof fn lemma_issued_share_sum(m: ItemMetadata, collection_mint: Seq<u8>, authority: Seq<u8>)
    requires
        issued_policy(m, collection_mint, authority),
    ensures
        share_sum(m.creators@) == 100,
{
    let s = m.creators@;
    assert(s.drop_last() =~= Seq::<Creator>::empty());
    assert(share_sum(Seq::<Creator>::empty()) == 0);
    assert(share_sum(s) == share_sum(s.drop_last()) + s.last().share);
    assert(s.last() == s[0]);
}

} // verus!
