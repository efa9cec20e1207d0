//! The credential store kept in a hash map.

use vstd::hash_map::StringHashMap;
use vstd::prelude::*;

use crate::domain::data_stores::{UserStore, UserStoreError, UserTable};
use crate::domain::email::Email;
use crate::domain::password::{Password, PasswordHash};
use crate::domain::user::{UnverifiedUser, User, UserView};

verus! {

/// The users of the service, in memory. Each user is filed under the text
/// of its address, with the rest of its record as the entry. The store never
/// fails for a reason of its own.
pub struct HashmapUserStore {
    users: StringHashMap<(PasswordHash, bool)>,
}

impl HashmapUserStore {
    /// An empty store.
    pub fn new() -> (store: Self)
        ensures
            store.users() == UserTable::empty(),
    {
        let store = HashmapUserStore { users: StringHashMap::new() };
        store
    }
}

impl Default for HashmapUserStore {
    fn default() -> (store: Self)
        ensures
            store.users() == UserTable::empty(),
    {
        HashmapUserStore::new()
    }
}

impl UserStore for HashmapUserStore {
    closed spec fn users(&self) -> UserTable {
        Map::new(
            |email: Seq<char>| self.users@.contains_key(email),
            |email: Seq<char>|
                UserView {
                    email,
                    password_hash: self.users@[email].0@,
                    requires_2fa: self.users@[email].1,
                },
        )
    }

    open spec fn infallible() -> bool {
        true
    }

    fn add_user(&mut self, user: User<UnverifiedUser>) -> (outcome: Result<(), UserStoreError>)
    {
        if self.users.contains_key(user.email().as_ref()) {
            return Err(UserStoreError::UserAlreadyExists);
        }
        let (email, password_hash, requires_2fa) = user.into_parts();
        self.users.insert(email.as_ref().to_string(), (password_hash, requires_2fa));
        Ok(())
    }

    fn get_user(&self, email: &Email) -> (outcome: Result<User<UnverifiedUser>, UserStoreError>)
    {
        match self.users.get(email.as_ref()) {
            Some(entry) => Ok(User::with_password_hash(email.clone(), entry.0.clone(), entry.1)),
            None => Err(UserStoreError::UserNotFound),
        }
    }

    /// An address that is not registered costs one hash as well, so that
    /// the time taken does not tell it from a wrong password.
    fn validate_user(&self, email: &Email, password: &Password) -> (outcome: Result<
        (),
        UserStoreError,
    >)
    {
        match self.users.get(email.as_ref()) {
            Some(entry) => {
                if entry.0.verify(password) {
                    Ok(())
                } else {
                    Err(UserStoreError::InvalidCredentials)
                }
            },
            None => {
                let _ = PasswordHash::with_salt(password, 0);
                Err(UserStoreError::UserNotFound)
            },
        }
    }
}

} // verus!
