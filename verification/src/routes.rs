//! What each endpoint of the service decides, from the values of a request
//! to the values of its reply.
//!
//! Together the endpoints walk a session through its states:
//!
//! - *start*: nothing is known of the caller;
//! - *credentials checked*: [`login`] has had the email and the password
//!   accepted by the credential store;
//! - *second factor pending*: for a user with second factor, `login` has
//!   stored a challenge and returned [`LoginStep::SecondFactorPending`]; the
//!   caller holds no token yet;
//! - *second factor verified*: [`verify_2fa`] has found the pair it was
//!   given to be the pending challenge, and has spent it;
//! - *authenticated*: `login` or `verify_2fa` has issued a session token,
//!   which [`verify_token`] accepts until it expires;
//! - *logged out*: [`logout`] has revoked the token, which is never accepted
//!   again.
//!
//! A refused request leaves every store as it was.

pub mod login;
pub mod logout;
pub mod signup;
pub mod verify_2fa;
pub mod verify_token;

pub use login::{login, LoginRequest, LoginResponse, LoginStep, TwoFactorAuthResponse};
pub use logout::logout;
pub use signup::{signup, SignupRequest, SignupResponse};
pub use verify_2fa::{verify_2fa, Verify2FARequest};
pub use verify_token::{verify_token, VerifyTokenRequest};
