//! The storage interface of the service.
//!
//! The persistent, SQL-backed store is an external collaborator and
//! lives with the embedding program; this module holds the in-memory
//! implementation of the same contract surface, which the service
//! logic and the tests run against.

pub mod mock_repository;
