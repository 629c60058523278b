//! Connection settings and the per-call options of reads and writes.
use vstd::prelude::*;

use crate::error::Error;

verus! {

/// Connection settings shared, read-only, by every call of a client.
#[derive(Clone, Debug, PartialEq, Eq)]
pub struct Config {
    /// Host and port of the agent, such as `127.0.0.1:8500`.
    pub address: String,
    /// `http` or `https`.
    pub scheme: String,
    /// Datacenter used when a call names none.
    pub datacenter: Option<String>,
    /// Token used when a call names none.
    pub token: Option<String>,
    /// Upper bound on each call, in milliseconds.
    pub http_timeout_ms: u64,
}

/// Options of a read.
#[derive(Clone, Debug, Default, PartialEq, Eq)]
pub struct QueryOptions {
    pub datacenter: Option<String>,
    /// Any server may answer, possibly with stale data.
    pub allow_stale: bool,
    /// Only the leader may answer, after confirming its leadership.
    pub require_consistent: bool,
    /// Index to block on; 0 asks for no blocking.
    pub wait_index: u64,
    /// How long the server may hold a blocking read, in milliseconds.
    pub wait_time_ms: Option<u64>,
    pub token: Option<String>,
}

/// Options of a write.
#[derive(Clone, Debug, Default, PartialEq, Eq)]
pub struct WriteOptions {
    pub datacenter: Option<String>,
    pub token: Option<String>,
}

/// The plain view of an optional string.
pub open spec fn opt_view(o: Option<String>) -> Option<Seq<char>> {
    match o {
        Some(s) => Some(s@),
        None => None,
    }
}

/// `first` when it is set, else `fallback`.
pub open spec fn either(first: Option<String>, fallback: Option<String>) -> Option<Seq<char>> {
    match first {
        Some(s) => Some(s@),
        None => opt_view(fallback),
    }
}

impl QueryOptions {
    /// Stale and consistent reads exclude each other.
    pub open spec fn is_valid(&self) -> bool {
        !(self.allow_stale && self.require_consistent)
    }

    /// Whether the server is asked to hold the read until the index moves.
    pub open spec fn is_blocking(&self) -> bool {
        self.wait_index > 0
    }

    /// Accepts the options, or rejects them when both consistency modes are set.
    pub fn validate(&self) -> (r: Result<(), Error>)
        ensures
            r is Ok <==> self.is_valid(),
            r matches Err(e) ==> e == Error::InvalidOptions,
    {
        if self.allow_stale && self.require_consistent {
            Err(Error::InvalidOptions)
        } else {
            Ok(())
        }
    }
}

pub fn choose_string(first: &Option<String>, fallback: &Option<String>) -> (r: Option<String>)
    ensures
        opt_view(r) == either(*first, *fallback),
{
    match first {
        Some(s) => Some(s.clone()),
        None => match fallback {
            Some(s) => Some(s.clone()),
            None => None,
        },
    }
}

} // verus!
