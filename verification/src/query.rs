//! Read-only query service over the versioned store.
//!
//! Other parts of the node read committed state through immutable snapshots
//! while the driver runs; snapshots are keyed by version, so no locking
//! discipline is needed between the two. The server validates each query
//! before any store access and passes the externally looked-up values
//! through unchanged. Merkle proofs of the answers are the store's own
//! business and stay outside this core.

use vstd::prelude::*;
use crate::store::{StoreModel, StoreModelView};

verus! {

/// Rejections of malformed queries.
#[derive(Debug, Clone, Copy, PartialEq, Eq, Structural)]
pub enum QueryError {
    /// A key/value query with an empty key.
    EmptyKey,
    /// A prefix query with an empty prefix.
    EmptyPrefix,
}

/// Answer to a key/value query: the value stored under the key, if any.
#[derive(Debug)]
pub struct KeyValueResponse {
    pub value: Option<Vec<u8>>,
}

/// One answer of a prefix query: a key under the prefix and its value.
#[derive(Debug)]
pub struct PrefixValueResponse {
    pub key: String,
    pub value: Vec<u8>,
}

/// The query service, wrapping the handle on the versioned store.
pub struct Server {
    storage: StoreModel,
}

impl View for Server {
    type V = StoreModelView;

    closed spec fn view(&self) -> StoreModelView {
        self.storage@
    }
}

impl Server {
    /// Creates the query service around a store handle.
    pub fn new(storage: StoreModel) -> (s: Server)
        ensures
            s@ == storage@,
    {
        Server { storage }
    }

    /// Answers a key/value query. An empty key is rejected before any store
    /// access; otherwise the value the store's snapshot held under the key
    /// is passed through unchanged.
    pub fn key_value(&self, key: &Vec<u8>, value: Option<Vec<u8>>) -> (r: Result<
        KeyValueResponse,
        QueryError,
    >)
        ensures
            key@.len() == 0 ==> (r matches Result::Err(e) && e == QueryError::EmptyKey),
            key@.len() > 0 ==> (r matches Result::Ok(resp) && resp.value == value),
    {
        if key.len() == 0 {
            Result::Err(QueryError::EmptyKey)
        } else {
            Result::Ok(KeyValueResponse { value })
        }
    }

    /// Answers a prefix query. An empty prefix is rejected before any store
    /// access; otherwise the entries the store's snapshot held under the
    /// prefix are passed through unchanged, in the order the store walked
    /// them.
    pub fn prefix_value(&self, prefix: &Vec<u8>, entries: Vec<(String, Vec<u8>)>) -> (r: Result<
        Vec<PrefixValueResponse>,
        QueryError,
    >)
        ensures
            prefix@.len() == 0 ==> (r matches Result::Err(e) && e == QueryError::EmptyPrefix),
            prefix@.len() > 0 ==> (r matches Result::Ok(resp) && resp@.len() == entries@.len()
                && (forall|i: int|
                0 <= i < entries@.len() ==> (#[trigger] resp@[i]).key == entries@[i].0
                    && resp@[i].value == entries@[i].1)),
    {
        if prefix.len() == 0 {
            return Result::Err(QueryError::EmptyPrefix);
        }
        let ghost all = entries@;
        let mut remaining = entries;
        let mut responses: Vec<PrefixValueResponse> = Vec::new();
        while remaining.len() > 0
            invariant
                responses@.len() + remaining@.len() == all.len(),
                remaining@ == all.skip(responses@.len() as int),
                forall|i: int|
                    0 <= i < responses@.len() ==> (#[trigger] responses@[i]).key == all[i].0
                        && responses@[i].value == all[i].1,
            decreases remaining@.len(),
        {
            let ghost done: int = responses@.len() as int;
            let entry = remaining.remove(0);
            proof {
                assert(entry == all[done]);
                assert(remaining@ =~= all.skip(done + 1));
            }
            let (key, value) = entry;
            responses.push(PrefixValueResponse { key, value });
        }
        Result::Ok(responses)
    }
}

} // verus!
