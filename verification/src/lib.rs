//! Credential and session lifecycle of an authentication service.
//!
//! Users sign up with an email and a password, log in, where they asked for
//! it prove a second factor, and hold a signed session token until it
//! expires or they log out.
//!
//! - [`domain`] holds the validated values (email, password, attempt id,
//!   code), the user record, the error kinds, and the three store
//!   capabilities with the model of what each operation does.
//! - [`services`] holds the in-memory backends of the stores.
//! - [`utils`] holds the token service and the helpers under it.
//! - [`routes`] holds what each endpoint decides, from the values of a
//!   request to the values of its reply.
//!
//! Apart from drawing random numbers, nothing here touches the world
//! outside: the current time, the signing secret and the stores are handed
//! in, and what has to be sent is handed back.

pub mod domain;
pub mod routes;
pub mod services;
pub mod utils;

pub use domain::ErrorResponse;
