//! The token service, the fixed configuration, and the text, randomness
//! and keyed-hash helpers shared by the domain.

pub mod auth;
pub mod constants;
pub mod crypto;
pub mod random;
pub mod text;
