//! The second-factor store kept in a hash map.

use vstd::hash_map::StringHashMap;
use vstd::prelude::*;

use crate::domain::data_stores::{ChallengeTable, TwoFACodeStore, TwoFACodeStoreError};
use crate::domain::email::Email;
use crate::domain::login_attempt_id::LoginAttemptId;
use crate::domain::two_fa_code::TwoFACode;

verus! {

/// The pending challenges, in memory, by the text of the address they were
/// issued for. The store never fails for a reason of its own.
pub struct HashmapTwoFACodeStore {
    codes: StringHashMap<(LoginAttemptId, TwoFACode)>,
}

impl HashmapTwoFACodeStore {
    /// An empty store.
    pub fn new() -> (store: Self)
        ensures
            store.challenges() == ChallengeTable::empty(),
    {
        let store = HashmapTwoFACodeStore { codes: StringHashMap::new() };
        store
    }
}

impl Default for HashmapTwoFACodeStore {
    fn default() -> (store: Self)
        ensures
            store.challenges() == ChallengeTable::empty(),
    {
        HashmapTwoFACodeStore::new()
    }
}

impl TwoFACodeStore for HashmapTwoFACodeStore {
    closed spec fn challenges(&self) -> ChallengeTable {
        self.codes@.map_values(|pair: (LoginAttemptId, TwoFACode)| (pair.0@, pair.1@))
    }

    open spec fn infallible() -> bool {
        true
    }

    fn add_code(
        &mut self,
        email: Email,
        login_attempt_id: LoginAttemptId,
        code: TwoFACode,
    ) -> (outcome: Result<(), TwoFACodeStoreError>)
    {
        let key = email.as_ref().to_string();
        self.codes.insert(key, (login_attempt_id, code));
        Ok(())
    }

    fn remove_code(&mut self, email: &Email) -> (outcome: Result<(), TwoFACodeStoreError>)
    {
        if !self.codes.contains_key(email.as_ref()) {
            return Err(TwoFACodeStoreError::LoginAttemptIdNotFound);
        }
        self.codes.remove(email.as_ref());
        Ok(())
    }

    fn get_code(&self, email: &Email) -> (outcome: Result<
        (LoginAttemptId, TwoFACode),
        TwoFACodeStoreError,
    >)
    {
        match self.codes.get(email.as_ref()) {
            Some(pair) => Ok((pair.0.clone(), pair.1.clone())),
            None => Err(TwoFACodeStoreError::LoginAttemptIdNotFound),
        }
    }
}

} // verus!
