//! Process configuration, fixed at startup: the port the service
//! listens on and the coordinates of the backing store. Values are
//! gathered from the environment by the embedding program and handed in
//! as plain values; they never change while the process runs.

use vstd::prelude::*;

verus! {

/// Immutable-after-startup configuration.
pub struct Config {
    pub api_port: u16,
    pub db_user: String,
    pub db_password: String,
    pub db_host: String,
    pub db_port: u16,
    pub db_name: String,
}

} // verus!
