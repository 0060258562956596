//! Error vocabulary of the service.
//!
//! Each layer keeps a detailed error kind for internal decisions;
//! [`custom_error_recover`] maps every detailed kind to the one outward
//! status and message a client may see, so that deliberately
//! indistinguishable failures stay indistinguishable.

pub mod account;
pub mod common;
pub mod custom_error_recover;
pub mod repository;
