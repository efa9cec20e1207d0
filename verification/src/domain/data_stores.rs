//! The three store capabilities that the service depends on, with the
//! mathematical model of what each operation does.
//!
//! Each store is modelled by a map or set keyed by text. An operation either
//! behaves as its model says, or, where the backend can fail, reports
//! `UnexpectedError` and leaves the store as it was. A backend that never
//! fails says so through `infallible`.

use vstd::prelude::*;

use crate::domain::email::Email;
use crate::domain::login_attempt_id::LoginAttemptId;
use crate::domain::password::Password;
use crate::domain::two_fa_code::TwoFACode;
use crate::domain::user::{UnverifiedUser, User, UserView};

verus! {

/// The users of a credential store, by the text of their address.
pub type UserTable = Map<Seq<char>, UserView>;

/// The pending challenges of a second-factor store: for the text of an
/// address, the text of the attempt id and of the code.
pub type ChallengeTable = Map<Seq<char>, (Seq<char>, Seq<char>)>;

/// The failures of a credential store.
#[derive(Debug, Clone, Copy, PartialEq, Eq, Structural)]
pub enum UserStoreError {
    UserAlreadyExists,
    UserNotFound,
    InvalidCredentials,
    UnexpectedError,
}

/// The failures of a second-factor store.
#[derive(Debug, Clone, Copy, PartialEq, Eq, Structural)]
pub enum TwoFACodeStoreError {
    LoginAttemptIdNotFound,
    UnexpectedError,
}

/// The failure of a revocation store.
#[derive(Debug, Clone, Copy, PartialEq, Eq, Structural)]
pub enum BannedTokenStoreError {
    UnexpectedError,
}

/// The outcomes of checking a second factor that are not success.
#[derive(Debug, Clone, Copy, PartialEq, Eq, Structural)]
pub enum SecondFactorError {
    /// The address has no pending challenge.
    NoPendingChallenge,
    /// The pending challenge belongs to another login attempt.
    AttemptIdMismatch,
    /// The attempt is the pending one, but the code is wrong.
    CodeMismatch,
    /// The store failed.
    UnexpectedError,
}

/// What adding `user` to `users` reports: a user is added only under an
/// address that is not yet taken.
pub open spec fn add_user_outcome(users: UserTable, user: UserView) -> Result<(), UserStoreError> {
    if users.contains_key(user.email) {
        Err(UserStoreError::UserAlreadyExists)
    } else {
        Ok(())
    }
}

/// The users after adding `user` to `users`: unchanged where the address is
/// taken.
pub open spec fn users_after_add(users: UserTable, user: UserView) -> UserTable {
    if users.contains_key(user.email) {
        users
    } else {
        users.insert(user.email, user)
    }
}

/// What looking up `email` in `users` reports.
pub open spec fn get_user_outcome(users: UserTable, email: Seq<char>) -> Result<
    UserView,
    UserStoreError,
> {
    if users.contains_key(email) {
        Ok(users[email])
    } else {
        Err(UserStoreError::UserNotFound)
    }
}

/// What checking `password` for `email` against `users` reports: an unknown
/// address and a password that the stored hash rejects are told apart.
pub open spec fn validate_user_outcome(
    users: UserTable,
    email: Seq<char>,
    password: Seq<char>,
) -> Result<(), UserStoreError> {
    if !users.contains_key(email) {
        Err(UserStoreError::UserNotFound)
    } else if users[email].password_hash.accepts(password) {
        Ok(())
    } else {
        Err(UserStoreError::InvalidCredentials)
    }
}

/// What checking the pair `id`, `code` for `email` against `challenges`
/// reports. The attempt id is compared before the code.
pub open spec fn verify_outcome(
    challenges: ChallengeTable,
    email: Seq<char>,
    id: Seq<char>,
    code: Seq<char>,
) -> Result<(), SecondFactorError> {
    if !challenges.contains_key(email) {
        Err(SecondFactorError::NoPendingChallenge)
    } else if challenges[email].0 != id {
        Err(SecondFactorError::AttemptIdMismatch)
    } else if challenges[email].1 != code {
        Err(SecondFactorError::CodeMismatch)
    } else {
        Ok(())
    }
}

/// The challenges after checking the pair `id`, `code` for `email`: the
/// challenge of `email` is removed when the check succeeds, and nothing
/// changes when it fails.
pub open spec fn challenges_after_verify(
    challenges: ChallengeTable,
    email: Seq<char>,
    id: Seq<char>,
    code: Seq<char>,
) -> ChallengeTable {
    if verify_outcome(challenges, email, id, code) is Ok {
        challenges.remove(email)
    } else {
        challenges
    }
}

/// Of two users added one after the other under one address, the second is
/// refused as already existing, and the refusal leaves the users as the first
/// addition left them.
pub proof fn lemma_second_add_is_refused(users: UserTable, first: UserView, second: UserView)
    requires
        first.email == second.email,
    ensures
        add_user_outcome(users_after_add(users, first), second) == Err::<(), UserStoreError>(
            UserStoreError::UserAlreadyExists,
        ),
        users_after_add(users_after_add(users, first), second) == users_after_add(users, first),
{
}

/// Once a user has been added, its address is validated with every password
/// that its hash accepts, and fails as invalid credentials with every
/// password that its hash rejects. An address that is not registered fails
/// in another way, as not found.
pub proof fn lemma_validate_after_add(
    users: UserTable,
    user: UserView,
    password: Seq<char>,
    unknown: Seq<char>,
)
    requires
        add_user_outcome(users, user) is Ok,
        !users_after_add(users, user).contains_key(unknown),
    ensures
        user.password_hash.accepts(password) ==> validate_user_outcome(
            users_after_add(users, user),
            user.email,
            password,
        ) is Ok,
        !user.password_hash.accepts(password) ==> validate_user_outcome(
            users_after_add(users, user),
            user.email,
            password,
        ) == Err::<(), UserStoreError>(UserStoreError::InvalidCredentials),
        validate_user_outcome(users_after_add(users, user), unknown, password) == Err::<
            (),
            UserStoreError,
        >(UserStoreError::UserNotFound),
{
}

/// A second challenge for an address replaces the first: the first pair of
/// attempt id and code is then refused and changes nothing, and only the
/// second pair is accepted. The two pairs must differ.
pub proof fn lemma_new_challenge_supersedes(
    challenges: ChallengeTable,
    email: Seq<char>,
    first: (Seq<char>, Seq<char>),
    second: (Seq<char>, Seq<char>),
)
    requires
        first != second,
    ensures
        ({
            let pending = challenges.insert(email, first).insert(email, second);
            &&& verify_outcome(pending, email, first.0, first.1) is Err
            &&& challenges_after_verify(pending, email, first.0, first.1) == pending
            &&& verify_outcome(pending, email, second.0, second.1) is Ok
        }),
{
}

/// A wrong code for the pending attempt is refused and leaves the challenge
/// in place, so that the right code is accepted afterwards.
pub proof fn lemma_wrong_code_keeps_challenge(
    challenges: ChallengeTable,
    email: Seq<char>,
    id: Seq<char>,
    code: Seq<char>,
    wrong: Seq<char>,
)
    requires
        challenges.contains_key(email),
        challenges[email] == (id, code),
        wrong != code,
    ensures
        verify_outcome(challenges, email, id, wrong) == Err::<(), SecondFactorError>(
            SecondFactorError::CodeMismatch,
        ),
        challenges_after_verify(challenges, email, id, wrong) == challenges,
        verify_outcome(challenges_after_verify(challenges, email, id, wrong), email, id, code)
            is Ok,
{
}

/// A challenge can be used once: after the pair of attempt id and code has
/// been accepted, the same pair finds no pending challenge.
pub proof fn lemma_challenge_is_single_use(
    challenges: ChallengeTable,
    email: Seq<char>,
    id: Seq<char>,
    code: Seq<char>,
)
    requires
        verify_outcome(challenges, email, id, code) is Ok,
    ensures
        verify_outcome(challenges_after_verify(challenges, email, id, code), email, id, code)
            == Err::<(), SecondFactorError>(SecondFactorError::NoPendingChallenge),
{
}

/// The users of the service, keyed by email.
pub trait UserStore {
    /// The users that the store holds. A backend that gives no model of
    /// itself keeps this one, of which nothing is known.
    open spec fn users(&self) -> UserTable {
        arbitrary()
    }

    /// Whether the backend never reports `UnexpectedError`. A backend that
    /// does not say is taken to be able to fail.
    open spec fn infallible() -> bool {
        false
    }

    /// Adds `user` unless its address is taken. A failed call changes
    /// nothing.
    fn add_user(&mut self, user: User<UnverifiedUser>) -> (outcome: Result<(), UserStoreError>)
        ensures
            match outcome {
                Err(UserStoreError::UnexpectedError) => {
                    &&& !Self::infallible()
                    &&& final(self).users() == old(self).users()
                },
                _ => {
                    &&& outcome == add_user_outcome(old(self).users(), user@)
                    &&& final(self).users() == users_after_add(old(self).users(), user@)
                },
            },
    ;

    /// The user registered under `email`.
    fn get_user(&self, email: &Email) -> (outcome: Result<User<UnverifiedUser>, UserStoreError>)
        ensures
            match outcome {
                Ok(user) => {
                    &&& get_user_outcome(self.users(), email@) == Ok::<UserView, UserStoreError>(
                        user@,
                    )
                    &&& user@.email == email@
                },
                Err(UserStoreError::UnexpectedError) => !Self::infallible(),
                Err(error) => get_user_outcome(self.users(), email@) == Err::<
                    UserView,
                    UserStoreError,
                >(error),
            },
    ;

    /// Checks `password` against the hash stored for `email`.
    fn validate_user(&self, email: &Email, password: &Password) -> (outcome: Result<
        (),
        UserStoreError,
    >)
        ensures
            match outcome {
                Err(UserStoreError::UnexpectedError) => !Self::infallible(),
                _ => outcome == validate_user_outcome(self.users(), email@, password@),
            },
    ;
}

/// The pending second-factor challenges, at most one for each email.
pub trait TwoFACodeStore {
    /// The challenges that the store holds. A backend that gives no model
    /// of itself keeps this one, of which nothing is known.
    open spec fn challenges(&self) -> ChallengeTable {
        arbitrary()
    }

    /// Whether the backend never reports `UnexpectedError`. A backend that
    /// does not say is taken to be able to fail.
    open spec fn infallible() -> bool {
        false
    }

    /// Makes the pair `login_attempt_id`, `code` the pending challenge of
    /// `email`, in place of any earlier one. Only a backend that fails makes
    /// this fail, and then nothing has changed.
    fn add_code(
        &mut self,
        email: Email,
        login_attempt_id: LoginAttemptId,
        code: TwoFACode,
    ) -> (outcome: Result<(), TwoFACodeStoreError>)
        ensures
            match outcome {
                Ok(()) => final(self).challenges() == old(self).challenges().insert(
                    email@,
                    (login_attempt_id@, code@),
                ),
                Err(error) => {
                    &&& error == TwoFACodeStoreError::UnexpectedError
                    &&& !Self::infallible()
                    &&& final(self).challenges() == old(self).challenges()
                },
            },
    ;

    /// Removes the pending challenge of `email`. A failed call changes
    /// nothing.
    fn remove_code(&mut self, email: &Email) -> (outcome: Result<(), TwoFACodeStoreError>)
        ensures
            match outcome {
                Ok(()) => {
                    &&& old(self).challenges().contains_key(email@)
                    &&& final(self).challenges() == old(self).challenges().remove(email@)
                },
                Err(TwoFACodeStoreError::LoginAttemptIdNotFound) => {
                    &&& !old(self).challenges().contains_key(email@)
                    &&& final(self).challenges() == old(self).challenges()
                },
                Err(TwoFACodeStoreError::UnexpectedError) => {
                    &&& !Self::infallible()
                    &&& final(self).challenges() == old(self).challenges()
                },
            },
    ;

    /// The pending challenge of `email`.
    fn get_code(&self, email: &Email) -> (outcome: Result<
        (LoginAttemptId, TwoFACode),
        TwoFACodeStoreError,
    >)
        ensures
            match outcome {
                Ok(pair) => {
                    &&& self.challenges().contains_key(email@)
                    &&& self.challenges()[email@] == (pair.0@, pair.1@)
                },
                Err(TwoFACodeStoreError::LoginAttemptIdNotFound) => !self.challenges().contains_key(
                    email@,
                ),
                Err(TwoFACodeStoreError::UnexpectedError) => !Self::infallible(),
            },
    ;
}

/// The session tokens that were revoked before they expired.
pub trait BannedTokenStore {
    /// The tokens that the store holds. A backend that gives no model of
    /// itself keeps this one, of which nothing is known.
    open spec fn tokens(&self) -> Set<Seq<char>> {
        arbitrary()
    }

    /// Whether the backend never reports `UnexpectedError`. A backend that
    /// does not say is taken to be able to fail.
    open spec fn infallible() -> bool {
        false
    }

    /// Revokes `token`. Revoking a token again is no error. Only a backend
    /// that fails makes this fail, and then nothing has changed.
    fn add_token(&mut self, token: String) -> (outcome: Result<(), BannedTokenStoreError>)
        ensures
            match outcome {
                Ok(()) => final(self).tokens() == old(self).tokens().insert(token@),
                Err(_) => !Self::infallible() && final(self).tokens() == old(self).tokens(),
            },
    ;

    /// Whether `token` has been revoked.
    fn contains_token(&self, token: &str) -> (outcome: Result<bool, BannedTokenStoreError>)
        ensures
            match outcome {
                Ok(revoked) => revoked == self.tokens().contains(token@),
                Err(_) => !Self::infallible(),
            },
    ;
}

/// Mints an attempt id and a code and makes them the pending challenge of
/// `email`, in place of any earlier one. Over a store that cannot fail this
/// always succeeds; a store that fails has changed nothing.
pub fn issue_challenge<C: TwoFACodeStore>(codes: &mut C, email: &Email) -> (issued: Result<
    (LoginAttemptId, TwoFACode),
    TwoFACodeStoreError,
>)
    ensures
        match issued {
            Ok(pair) => final(codes).challenges() == old(codes).challenges().insert(
                email@,
                (pair.0@, pair.1@),
            ),
            Err(error) => {
                &&& error == TwoFACodeStoreError::UnexpectedError
                &&& !C::infallible()
                &&& final(codes).challenges() == old(codes).challenges()
            },
        },
{
    let login_attempt_id = LoginAttemptId::default();
    let code = TwoFACode::default();
    match codes.add_code(email.clone(), login_attempt_id.clone(), code.clone()) {
        Ok(()) => Ok((login_attempt_id, code)),
        Err(error) => Err(error),
    }
}

/// Checks the pair `login_attempt_id`, `code` against the pending challenge
/// of `email` and, when both match, removes the challenge, so that it can be
/// used once. A failed check leaves the challenge in place, and so does a
/// store that fails.
pub fn verify_and_consume<C: TwoFACodeStore>(
    codes: &mut C,
    email: &Email,
    login_attempt_id: &LoginAttemptId,
    code: &TwoFACode,
) -> (outcome: Result<(), SecondFactorError>)
    ensures
        match outcome {
            Err(SecondFactorError::UnexpectedError) => {
                &&& !C::infallible()
                &&& final(codes).challenges() == old(codes).challenges()
            },
            _ => {
                &&& outcome == verify_outcome(
                    old(codes).challenges(),
                    email@,
                    login_attempt_id@,
                    code@,
                )
                &&& final(codes).challenges() == challenges_after_verify(
                    old(codes).challenges(),
                    email@,
                    login_attempt_id@,
                    code@,
                )
            },
        },
{
    let (pending_id, pending_code) = match codes.get_code(email) {
        Ok(pair) => pair,
        Err(TwoFACodeStoreError::LoginAttemptIdNotFound) => {
            return Err(SecondFactorError::NoPendingChallenge);
        },
        Err(TwoFACodeStoreError::UnexpectedError) => {
            return Err(SecondFactorError::UnexpectedError);
        },
    };
    if pending_id != *login_attempt_id {
        return Err(SecondFactorError::AttemptIdMismatch);
    }
    if pending_code != *code {
        return Err(SecondFactorError::CodeMismatch);
    }
    match codes.remove_code(email) {
        Ok(()) => Ok(()),
        Err(_) => Err(SecondFactorError::UnexpectedError),
    }
}

} // verus!
