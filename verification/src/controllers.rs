//! Service controllers: registration and login, session
//! authentication, and the ownership-gated question and answer
//! operations.
//!
//! Controllers hold only immutable-after-startup configuration (the
//! token key); the store is handed into each call by the embedding
//! program, which owns the shared connection to it.

pub mod answer;
pub mod authentication;
pub mod question;
