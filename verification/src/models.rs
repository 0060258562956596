//! Domain entities: accounts and sessions, questions, answers, and the
//! pagination request value.

pub mod account;
pub mod answer;
pub mod pagination;
pub mod question;
