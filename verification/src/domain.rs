//! The validated values, the user record, the store capabilities and the
//! error kinds of the service.

pub mod data_stores;
pub mod email;
pub mod error;
pub mod login_attempt_id;
pub mod password;
pub mod two_fa_code;
pub mod user;

pub use data_stores::{
    BannedTokenStore, BannedTokenStoreError, SecondFactorError, TwoFACodeStore,
    TwoFACodeStoreError, UserStore, UserStoreError,
};
pub use email::Email;
pub use error::{AuthAPIError, ErrorResponse};
pub use login_attempt_id::LoginAttemptId;
pub use password::{Password, PasswordHash};
pub use two_fa_code::TwoFACode;
pub use user::{TwoFactorNotice, UnverifiedUser, User, UserStatus, VerifiedUser};
