//! The revocation store kept in a hash set.

use vstd::hash_set::StringHashSet;
use vstd::prelude::*;

use crate::domain::data_stores::{BannedTokenStore, BannedTokenStoreError};

verus! {

/// The revoked tokens, in memory. The store never fails for a reason of its
/// own.
pub struct HashsetBannedTokenStore {
    tokens: StringHashSet,
}

impl HashsetBannedTokenStore {
    /// An empty store.
    pub fn new() -> (store: Self)
        ensures
            store.tokens() == Set::<Seq<char>>::empty(),
    {
        HashsetBannedTokenStore { tokens: StringHashSet::new() }
    }
}

impl Default for HashsetBannedTokenStore {
    fn default() -> (store: Self)
        ensures
            store.tokens() == Set::<Seq<char>>::empty(),
    {
        HashsetBannedTokenStore::new()
    }
}

impl BannedTokenStore for HashsetBannedTokenStore {
    closed spec fn tokens(&self) -> Set<Seq<char>> {
        self.tokens@
    }

    open spec fn infallible() -> bool {
        true
    }

    fn add_token(&mut self, token: String) -> (outcome: Result<(), BannedTokenStoreError>)
    {
        self.tokens.insert(token);
        Ok(())
    }

    fn contains_token(&self, token: &str) -> (outcome: Result<bool, BannedTokenStoreError>)
    {
        Ok(self.tokens.contains(token))
    }
}

} // verus!
