//! Request authentication and session resolution over a partitioned
//! key-value entity store.
//!
//! Entities (users, email-lookup rows, sessions, organizations, teams)
//! share one store; a tagged composite key (`USER#<id>`) disambiguates
//! them. The authentication middleware resolves a bearer credential to
//! a session and, when the session is bound, to a user.

pub mod auth;
pub mod errors;
pub mod id;
pub mod keys;
pub mod org;
pub mod record;
pub mod session;
pub mod store;
pub mod team;
pub mod text;
pub mod user;
