//! Model of the driver's handle on the versioned state store.
//!
//! The store itself — snapshots, Merkle proofs, root-hash computation — is an
//! external collaborator. The driver reads exactly two things of it: the
//! version of the last committed state and the root hash of the current
//! content, so that is what the model carries. A root hash stands for the
//! whole content: it is a digest uniquely determined by the content at a
//! version, and byte-identical across correct replicas.

use vstd::prelude::*;

verus! {

/// Version reported by a store that has never committed. The first commit
/// moves the store to version 0.
pub const VERSION_UNINITIALIZED: u64 = u64::MAX;

/// Abstract view of the store handle.
pub struct StoreModelView {
    pub version: u64,
    pub root_hash: Seq<u8>,
}

/// The driver's view of the versioned state store: the commit counter and
/// the root hash of the latest version.
#[derive(Debug, Clone, PartialEq, Eq)]
pub struct StoreModel {
    /// Commit counter; [`VERSION_UNINITIALIZED`] before the first commit.
    pub version: u64,
    /// Root hash of the content at `version`.
    pub root_hash: Vec<u8>,
}

impl View for StoreModel {
    type V = StoreModelView;

    open spec fn view(&self) -> StoreModelView {
        StoreModelView { version: self.version, root_hash: self.root_hash@ }
    }
}

impl StoreModelView {
    /// Whether the store has ever committed.
    pub open spec fn initialized(self) -> bool {
        self.version != VERSION_UNINITIALIZED
    }

    /// The version after one more commit: an uninitialized store moves to
    /// version 0, an initialized one advances by exactly one.
    pub open spec fn next_version(self) -> u64 {
        if self.version == VERSION_UNINITIALIZED {
            0
        } else {
            (self.version + 1) as u64
        }
    }

    /// The store after a commit that produced `root_hash`.
    pub open spec fn committed(self, root_hash: Seq<u8>) -> StoreModelView {
        StoreModelView { version: self.next_version(), root_hash: root_hash }
    }
}

impl StoreModel {
    /// Builds the store handle from the externally observed version and root
    /// hash.
    pub fn new(version: u64, root_hash: Vec<u8>) -> (s: StoreModel)
        ensures
            s@ == (StoreModelView { version: version, root_hash: root_hash@ }),
    {
        StoreModel { version, root_hash }
    }

    /// Whether the store has ever committed.
    pub fn initialized(&self) -> (r: bool)
        ensures
            r == self@.initialized(),
    {
        self.version != VERSION_UNINITIALIZED
    }

    /// Records a commit that produced `root_hash`: the version advances by
    /// exactly one (from the uninitialized sentinel to version 0), and the
    /// root hash is replaced.
    pub fn record_commit(&mut self, root_hash: Vec<u8>)
        ensures
            final(self)@ == old(self)@.committed(root_hash@),
    {
        self.version = if self.version == VERSION_UNINITIALIZED {
            0
        } else {
            self.version + 1
        };
        self.root_hash = root_hash;
    }
}

} // verus!
