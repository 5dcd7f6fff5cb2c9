//! Core of a username/password account service.
//!
//! The library contains the authentication and session admission pipeline:
//! password hashing behind an admission-controlled gate, session lifecycle
//! (creation, resolution, revocation, periodic sweep), the timing-equalized
//! login decision, bearer-token extraction, and the request-dispatcher
//! discipline (method, trailing-path and content-length checks), together
//! with the two-tier error taxonomy they report through.
//!
//! Storage lives outside the library: the `users` and `sessions` relations
//! are modelled here as in-memory tables with explicit invariants, and the
//! current time is always an argument, so every rule about validity and
//! expiry is stated and checked against those models.

pub mod account;
pub mod bearer;
pub mod body;
pub mod dispatch;
pub mod error;
pub mod hashing;
pub mod login;
pub mod session;
pub mod table;
pub mod text;
pub mod types;
pub mod users;
