//! Process configuration of the local variant, already loaded.

use vstd::prelude::*;

verus! {

/// Settings of the local variant: store, token secret and listen address.
#[derive(Clone, Debug)]
pub struct Config {
    pub database_url: String,
    pub jwt_secret: String,
    pub host: String,
    pub port: u16,
}

} // verus!
