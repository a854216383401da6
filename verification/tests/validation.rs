use cnft::accounts::{
    AccountKind, AnchorCreateTree, CollectionMetadata, Deployment, MintCompressedNft, ValError,
};
use cnft::addr::{addr_eq, Addr};
use cnft::derivation::{derive_authority, derive_issuance_signer, derive_registry_config};
use cnft::invoke::{anchor_create_tree, mint_compressed_nft};

fn addr(b: u8) -> Addr {
    Addr { bytes: vec![b; 32] }
}

fn supplied(address: Addr, kind: AccountKind, writable: bool, signer: bool) -> cnft::accounts::SuppliedAccount {
    cnft::accounts::SuppliedAccount { address, kind, writable, signer }
}

fn deployment() -> Deployment {
    Deployment {
        program_id: addr(1),
        registry_program: addr(2),
        compression_program: addr(3),
        log_wrapper: addr(4),
        system_program: addr(5),
        token_metadata_program: addr(6),
    }
}

fn create_accounts(d: &Deployment, handle: &Addr) -> AnchorCreateTree {
    let authority = derive_authority(&d.program_id).expect("derivation exists").0;
    let config = derive_registry_config(handle, &d.registry_program).expect("derivation exists").0;
    AnchorCreateTree {
        payer: supplied(addr(10), AccountKind::Wallet, true, true),
        pda: supplied(authority, AccountKind::Wallet, false, false),
        tree_authority: supplied(config, AccountKind::Wallet, true, false),
        merkle_tree: supplied(handle.dup(), AccountKind::Wallet, true, false),
        log_wrapper: supplied(addr(4), AccountKind::Program, false, false),
        system_program: supplied(addr(5), AccountKind::Program, false, false),
        bubblegum_program: supplied(addr(2), AccountKind::Program, false, false),
        compression_program: supplied(addr(3), AccountKind::Program, false, false),
    }
}

fn issue_accounts(d: &Deployment, handle: &Addr) -> MintCompressedNft {
    let authority = derive_authority(&d.program_id).expect("derivation exists").0;
    let config = derive_registry_config(handle, &d.registry_program).expect("derivation exists").0;
    let delegate_signer = derive_issuance_signer(&d.registry_program).expect("derivation exists").0;
    MintCompressedNft {
        payer: supplied(addr(10), AccountKind::Wallet, true, true),
        pda: supplied(authority, AccountKind::Wallet, false, false),
        tree_authority: supplied(config, AccountKind::Wallet, true, false),
        merkle_tree: supplied(handle.dup(), AccountKind::Wallet, true, false),
        bubblegum_signer: supplied(delegate_signer, AccountKind::Wallet, false, false),
        log_wrapper: supplied(addr(4), AccountKind::Program, false, false),
        compression_program: supplied(addr(3), AccountKind::Program, false, false),
        bubblegum_program: supplied(addr(2), AccountKind::Program, false, false),
        token_metadata_program: supplied(addr(6), AccountKind::Program, false, false),
        system_program: supplied(addr(5), AccountKind::Program, false, false),
        collection_mint: supplied(addr(20), AccountKind::Mint, false, false),
        collection_metadata: supplied(addr(21), AccountKind::Metadata, true, false),
        edition_account: supplied(addr(22), AccountKind::Edition, false, false),
        collection_content: CollectionMetadata {
            name: String::from("Reference"),
            symbol: String::from("REF"),
            uri: String::from("https://example.invalid/reference.json"),
            mint: addr(20),
        },
    }
}

#[test]
fn create_call_has_the_fixed_account_layout() {
    let d = deployment();
    let handle = addr(30);
    let a = create_accounts(&d, &handle);
    let call = anchor_create_tree(&d, &a, 14, 64).expect("validation passes");
    assert_eq!(call.program.bytes, d.registry_program.bytes);
    assert_eq!(call.accounts.len(), 7);
    // config record, handle and payer mutable; payer and authority sign
    assert!(call.accounts[0].writable && !call.accounts[0].signer);
    assert!(call.accounts[1].writable && !call.accounts[1].signer);
    assert!(call.accounts[2].writable && call.accounts[2].signer);
    assert!(!call.accounts[3].writable && call.accounts[3].signer);
    assert!(addr_eq(&call.accounts[0].address, &a.tree_authority.address));
    assert!(addr_eq(&call.accounts[1].address, &a.merkle_tree.address));
    assert!(addr_eq(&call.accounts[2].address, &a.payer.address));
    assert!(addr_eq(&call.accounts[3].address, &a.pda.address));
    for i in 4..7 {
        assert!(!call.accounts[i].writable && !call.accounts[i].signer);
    }
}

#[test]
fn issue_call_has_the_fixed_account_layout() {
    let d = deployment();
    let handle = addr(30);
    let a = issue_accounts(&d, &handle);
    let payer = a.payer.address.dup();
    let pda = a.pda.address.dup();
    let call = mint_compressed_nft(&d, a).expect("validation passes");
    assert_eq!(call.accounts.len(), 16);
    // leaf owner and delegate are both the paying caller
    assert!(addr_eq(&call.accounts[1].address, &payer));
    assert!(addr_eq(&call.accounts[2].address, &payer));
    // payer, tree delegate and collection authority sign
    assert!(call.accounts[4].signer && addr_eq(&call.accounts[4].address, &payer));
    assert!(call.accounts[5].signer && addr_eq(&call.accounts[5].address, &pda));
    assert!(call.accounts[6].signer && addr_eq(&call.accounts[6].address, &pda));
    // config record, handle and collection metadata are mutable
    assert!(call.accounts[0].writable);
    assert!(call.accounts[3].writable);
    assert!(call.accounts[9].writable);
}

#[test]
fn wrong_claimed_authority_is_a_derivation_mismatch() {
    let d = deployment();
    let handle = addr(30);
    let mut a = issue_accounts(&d, &handle);
    a.pda = supplied(addr(77), AccountKind::Wallet, false, false);
    let r = mint_compressed_nft(&d, a);
    assert!(matches!(r, Err(ValError::DerivationMismatch)));
}

#[test]
fn wrong_config_record_is_a_derivation_mismatch() {
    let d = deployment();
    let handle = addr(30);
    let mut a = create_accounts(&d, &handle);
    a.tree_authority = supplied(addr(78), AccountKind::Wallet, true, false);
    let r = anchor_create_tree(&d, &a, 14, 64);
    assert!(matches!(r, Err(ValError::DerivationMismatch)));
}

#[test]
fn unsigned_payer_is_a_missing_signer() {
    let d = deployment();
    let handle = addr(30);
    let mut a = create_accounts(&d, &handle);
    a.payer.signer = false;
    let r = anchor_create_tree(&d, &a, 14, 64);
    assert!(matches!(r, Err(ValError::MissingSigner)));
}

#[test]
fn immutable_registry_handle_is_not_writable() {
    let d = deployment();
    let handle = addr(30);
    let mut a = create_accounts(&d, &handle);
    a.merkle_tree.writable = false;
    let r = anchor_create_tree(&d, &a, 14, 64);
    assert!(matches!(r, Err(ValError::NotWritable)));
}

#[test]
fn immutable_collection_metadata_is_not_writable() {
    let d = deployment();
    let handle = addr(30);
    let mut a = issue_accounts(&d, &handle);
    a.collection_metadata.writable = false;
    let r = mint_compressed_nft(&d, a);
    assert!(matches!(r, Err(ValError::NotWritable)));
}

#[test]
fn wrong_registry_program_identity_is_rejected() {
    let d = deployment();
    let handle = addr(30);
    let mut a = create_accounts(&d, &handle);
    a.bubblegum_program = supplied(addr(88), AccountKind::Program, false, false);
    let r = anchor_create_tree(&d, &a, 14, 64);
    assert!(matches!(r, Err(ValError::WrongProgram)));
}

#[test]
fn non_program_log_wrapper_is_the_wrong_kind() {
    let d = deployment();
    let handle = addr(30);
    let mut a = create_accounts(&d, &handle);
    a.log_wrapper.kind = AccountKind::Wallet;
    let r = anchor_create_tree(&d, &a, 14, 64);
    assert!(matches!(r, Err(ValError::WrongAccountKind)));
}

#[test]
fn metadata_of_another_mint_is_the_wrong_kind() {
    let d = deployment();
    let handle = addr(30);
    let mut a = issue_accounts(&d, &handle);
    a.collection_content.mint = addr(55);
    let r = mint_compressed_nft(&d, a);
    assert!(matches!(r, Err(ValError::WrongAccountKind)));
}

#[test]
fn sizing_arguments_pass_through_unchecked() {
    let d = deployment();
    let handle = addr(30);
    let a = create_accounts(&d, &handle);
    // A buffer size that is not a power of two is still passed through: the
    // external subsystem, not this layer, enforces sizing validity.
    let call = anchor_create_tree(&d, &a, 3, 63).expect("validation passes");
    assert_eq!(call.args.max_depth, 3);
    assert_eq!(call.args.max_buffer_size, 63);
}
