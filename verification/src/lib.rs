//! Core of a question-and-answer service: accounts register and log in,
//! sessions are carried in encrypted bearer tokens, and questions and
//! answers may only be mutated by the account that owns them.
//!
//! The crate is organised around six components: password hashing
//! ([`password`]), token issuance and validation ([`token`]), the
//! service controllers ([`controllers`]), the ownership-gated resource
//! mutations (inside the question and answer controllers), the storage
//! interface with its in-memory implementation ([`repository`]), and the
//! error vocabulary ([`custom_errors`]).

pub mod config;
pub mod controllers;
pub mod digits;
pub mod custom_errors;
pub mod models;
pub mod password;
pub mod repository;
pub mod token;
