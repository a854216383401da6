//! A model of the external registry subsystem's acceptance rules.
//!
//! The registry itself lives outside this system and is mutated only by the
//! external registry program.  This module states that program's documented
//! behaviour for the two calls this crate assembles — each call applies
//! atomically or is rejected whole — so that the lifecycle of a registry can
//! be reasoned about and exercised end to end: a configuration record is
//! created exactly once, its owner never changes, and only the recorded owner
//! may append items.

use vstd::prelude::*;
use crate::addr::{addr_eq, Addr};
use crate::metadata::ItemMetadata;
use crate::invoke::{CreateRegistryCall, IssueItemCall};

verus! {

/// The configuration record of one registry, as the external subsystem
/// keeps it from creation on.
pub struct ConfigRecord {
    /// The identity recorded as owner and tree creator; never changed here.
    pub owner: Addr,
    pub max_depth: u32,
    pub max_buffer_size: u32,
    /// Whether anyone may append items, or only the owner.
    pub public: bool,
}

/// One item appended to a registry.
pub struct Leaf {
    /// The leaf's owner: the paying caller.
    pub owner: Addr,
    /// The leaf's delegate: also the paying caller.
    pub delegate: Addr,
    pub metadata: ItemMetadata,
}

/// How the external subsystem rejects a call, atomically and whole.
#[derive(Debug, PartialEq, Eq, Structural)]
pub enum StoreError {
    /// The account list does not fit the expected layout or names another
    /// registry.
    MalformedCall,
    /// The configuration record already exists, or does not exist yet.
    StateConflict,
    /// The presented creator identity is not the recorded owner, or did not
    /// sign.
    AuthorizationRejection,
}

/// One registry: its handle, its configuration record once created, and the
/// items appended so far.
pub struct Registry {
    pub handle: Addr,
    pub config: Option<ConfigRecord>,
    pub leaves: Vec<Leaf>,
}

/// Whether the subsystem accepts a creation call against this registry:
/// the expected account layout, addressed to this handle, with a signing
/// tree creator, and no configuration record yet.
pub open spec fn create_accepted(s: Registry, c: CreateRegistryCall) -> bool {
    &&& c.accounts@.len() == 7
    &&& c.accounts@[1].address@ == s.handle@
    &&& c.accounts@[3].signer
    &&& s.config is None
}

/// Whether the subsystem accepts an issuance call against this registry:
/// the expected account layout, addressed to this handle, a configuration
/// record in place, and the signing tree creator equal to the recorded owner.
pub open spec fn issue_accepted(s: Registry, c: IssueItemCall) -> bool {
    &&& c.accounts@.len() == 16
    &&& c.accounts@[3].address@ == s.handle@
    &&& s.config matches Some(r) && {
        &&& c.accounts@[5].signer
        &&& c.accounts@[5].address@ == r.owner@
    }
}

impl Registry {
    /// A fresh registry: a handle with no configuration record and no items.
    pub fn new(handle: Addr) -> (s: Registry)
        ensures
            s.handle == handle,
            s.config is None,
            s.leaves@.len() == 0,
    {
        Registry { handle, config: None, leaves: Vec::new() }
    }

    /// The number of items appended so far.
    pub fn item_count(&self) -> (n: usize)
        ensures
            n == self.leaves@.len(),
    {
        self.leaves.len()
    }

    /// Apply a creation call: initialize the configuration record with the
    /// call's tree creator as owner, exactly once per registry.  A second
    /// creation is a state conflict and leaves the record unchanged.
    pub fn apply_create(&mut self, c: &CreateRegistryCall) -> (r: Result<(), StoreError>)
        ensures
            r is Ok <==> create_accepted(*old(self), *c),
            r is Err ==> *final(self) == *old(self),
            c.accounts@.len() != 7 || c.accounts@[1].address@ != old(self).handle@ ==> r == Err::<
                (),
                StoreError,
            >(StoreError::MalformedCall),
            c.accounts@.len() == 7 && c.accounts@[1].address@ == old(self).handle@
                && !c.accounts@[3].signer ==> r == Err::<(), StoreError>(
                StoreError::AuthorizationRejection,
            ),
            c.accounts@.len() == 7 && c.accounts@[1].address@ == old(self).handle@
                && c.accounts@[3].signer && old(self).config is Some ==> r == Err::<(), StoreError>(
                StoreError::StateConflict,
            ),
            r is Ok ==> {
                &&& final(self).handle == old(self).handle
                &&& final(self).leaves == old(self).leaves
                &&& final(self).config matches Some(k) && {
                    &&& k.owner@ == c.accounts@[3].address@
                    &&& k.max_depth == c.args.max_depth
                    &&& k.max_buffer_size == c.args.max_buffer_size
                    &&& k.public == c.args.public
                }
            },
    {
        if c.accounts.len() != 7 {
            return Err(StoreError::MalformedCall);
        }
        if !addr_eq(&c.accounts[1].address, &self.handle) {
            return Err(StoreError::MalformedCall);
        }
        if !c.accounts[3].signer {
            return Err(StoreError::AuthorizationRejection);
        }
        if self.config.is_some() {
            return Err(StoreError::StateConflict);
        }
        self.config = Some(
            ConfigRecord {
                owner: c.accounts[3].address.dup(),
                max_depth: c.args.max_depth,
                max_buffer_size: c.args.max_buffer_size,
                public: c.args.public,
            },
        );
        Ok(())
    }

    /// Apply an issuance call: append one item, owned and delegated as the
    /// call names, provided the configuration record exists and the signing
    /// tree creator is the recorded owner.
    pub fn apply_issue(&mut self, c: IssueItemCall) -> (r: Result<(), StoreError>)
        ensures
            r is Ok <==> issue_accepted(*old(self), c),
            r is Err ==> *final(self) == *old(self),
            c.accounts@.len() != 16 || c.accounts@[3].address@ != old(self).handle@ ==> r == Err::<
                (),
                StoreError,
            >(StoreError::MalformedCall),
            c.accounts@.len() == 16 && c.accounts@[3].address@ == old(self).handle@ && old(
                self,
            ).config is None ==> r == Err::<(), StoreError>(StoreError::StateConflict),
            c.accounts@.len() == 16 && c.accounts@[3].address@ == old(self).handle@ && (old(
                self,
            ).config matches Some(k) && !(c.accounts@[5].signer && c.accounts@[5].address@
                == k.owner@)) ==> r == Err::<(), StoreError>(StoreError::AuthorizationRejection),
            r is Ok ==> {
                &&& final(self).handle == old(self).handle
                &&& final(self).config == old(self).config
                &&& final(self).leaves@.len() == old(self).leaves@.len() + 1
                &&& final(self).leaves@.subrange(0, old(self).leaves@.len() as int) == old(
                    self,
                ).leaves@
                &&& final(self).leaves@.last().owner@ == c.accounts@[1].address@
                &&& final(self).leaves@.last().delegate@ == c.accounts@[2].address@
                &&& final(self).leaves@.last().metadata == c.metadata
            },
    {
        if c.accounts.len() != 16 {
            return Err(StoreError::MalformedCall);
        }
        if !addr_eq(&c.accounts[3].address, &self.handle) {
            return Err(StoreError::MalformedCall);
        }
        let owner_ok = match &self.config {
            None => {
                return Err(StoreError::StateConflict);
            },
            Some(k) => c.accounts[5].signer && addr_eq(&c.accounts[5].address, &k.owner),
        };
        if !owner_ok {
            return Err(StoreError::AuthorizationRejection);
        }
        let leaf = Leaf {
            owner: c.accounts[1].address.dup(),
            delegate: c.accounts[2].address.dup(),
            metadata: c.metadata,
        };
        self.leaves.push(leaf);
        proof {
            assert(self.leaves@.subrange(0, old(self).leaves@.len() as int) =~= old(self).leaves@);
        }
        Ok(())
    }
}

} // verus!
