//! A client: connection settings shared by every call it builds.
use vstd::prelude::*;

use crate::options::Config;

verus! {

/// Holds the settings that every request of this client starts from.
#[derive(Clone, Debug, PartialEq, Eq)]
pub struct Client {
    pub config: Config,
}

impl Client {
    pub fn new(config: Config) -> (r: Client)
        ensures
            r.config == config,
    {
        Client { config }
    }
}

} // verus!
