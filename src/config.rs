//! The user's configuration: the account name used to log in.

use vstd::prelude::*;

verus! {

/// The configuration file's contents.
#[derive(Debug)]
pub struct FedoraConfig {
    /// The account table.
    pub fas: FASConfig,
}

/// The account table of the configuration.
#[derive(Debug)]
pub struct FASConfig {
    /// The account name used to log in.
    pub username: String,
}

} // verus!
