//! Google sign-in flow helpers: building the authorization URL, the token
//! request, reading the token response, decoding the ID token's claims and
//! deciding between login and registration, plus the database schema plan.

pub mod claims;
pub mod client;
pub mod error;
pub mod external;
pub mod flow;
pub mod migration;
pub mod text;
pub mod token;
