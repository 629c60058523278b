//! Reading the outcome of one HTTP call: success, refusal or transport failure,
//! and the metadata that comes with a success.
use vstd::prelude::*;
use vstd::string::*;

use crate::error::{Error, ResponseFault, TransportFailure};
use crate::request::Pairs;
use crate::text::{find_header, header_value, pairs_view, parse_u64, parse_u64_spec};

verus! {

/// Metadata of a read, taken from the response headers.
#[derive(Clone, Copy, Debug, Default, PartialEq, Eq)]
pub struct QueryMeta {
    /// Index of the data returned; the next blocking read waits on it.
    pub last_index: u64,
    /// Whether the answering server knew of a leader.
    pub known_leader: bool,
    /// Time since the answering server last heard from the leader, in milliseconds.
    pub last_contact_ms: u64,
}

/// Metadata of a write, measured by the client.
#[derive(Clone, Copy, Debug, Default, PartialEq, Eq)]
pub struct WriteMeta {
    /// Time of the one round trip, in milliseconds.
    pub request_time_ms: u64,
}

/// What one HTTP call came to.
#[derive(Clone, Debug, PartialEq, Eq)]
pub enum HttpOutcome {
    /// The server answered.
    Completed { status: u16, headers: Vec<(String, String)>, body: String },
    /// No answer could be had.
    Failed(TransportFailure),
}

pub open spec fn is_success(status: u16) -> bool {
    200 <= status && status < 300
}

/// The index of a read: required on a blocking read, never below the index waited on.
pub open spec fn index_of(wait_index: u64, hs: Pairs) -> Result<u64, ResponseFault> {
    match header_value(hs, "X-Consul-Index"@) {
        None => if wait_index > 0 {
            Err(ResponseFault::MissingIndex)
        } else {
            Ok(0)
        },
        Some(v) => match parse_u64_spec(v) {
            None => Err(ResponseFault::BadIndex),
            Some(n) => if n < wait_index {
                Err(ResponseFault::IndexWentBack)
            } else {
                Ok(n)
            },
        },
    }
}

/// Whether the server knew of a leader; absent means it did not say so.
pub open spec fn known_leader_of(hs: Pairs) -> Result<bool, ResponseFault> {
    match header_value(hs, "X-Consul-Knownleader"@) {
        None => Ok(false),
        Some(v) => if v == "true"@ {
            Ok(true)
        } else if v == "false"@ {
            Ok(false)
        } else {
            Err(ResponseFault::BadKnownLeader)
        },
    }
}

/// Milliseconds since the last contact with the leader; absent means 0.
pub open spec fn last_contact_of(hs: Pairs) -> Result<u64, ResponseFault> {
    match header_value(hs, "X-Consul-Lastcontact"@) {
        None => Ok(0),
        Some(v) => match parse_u64_spec(v) {
            None => Err(ResponseFault::BadLastContact),
            Some(n) => Ok(n),
        },
    }
}

/// The metadata of a successful read, or the first header that spoils it.
pub open spec fn query_meta_of(wait_index: u64, hs: Pairs) -> Result<QueryMeta, ResponseFault> {
    match index_of(wait_index, hs) {
        Err(f) => Err(f),
        Ok(i) => match known_leader_of(hs) {
            Err(f) => Err(f),
            Ok(l) => match last_contact_of(hs) {
                Err(f) => Err(f),
                Ok(c) => Ok(QueryMeta { last_index: i, known_leader: l, last_contact_ms: c }),
            },
        },
    }
}

/// The result of a read that waited on `wait_index` and came to `outcome`.
pub open spec fn read_result(wait_index: u64, outcome: HttpOutcome) -> Result<
    (String, QueryMeta),
    Error,
> {
    match outcome {
        HttpOutcome::Failed(f) => Err(Error::Transport(f)),
        HttpOutcome::Completed { status, headers, body } => if !is_success(status) {
            Err(Error::Api { status, body })
        } else {
            match query_meta_of(wait_index, pairs_view(headers@)) {
                Ok(m) => Ok((body, m)),
                Err(f) => Err(Error::Transport(TransportFailure::Malformed(f))),
            }
        },
    }
}

/// The result of a write that took `elapsed_ms` and came to `outcome`.
pub open spec fn write_result(outcome: HttpOutcome, elapsed_ms: u64) -> Result<
    (String, WriteMeta),
    Error,
> {
    match outcome {
        HttpOutcome::Failed(f) => Err(Error::Transport(f)),
        HttpOutcome::Completed { status, headers, body } => if !is_success(status) {
            Err(Error::Api { status, body })
        } else {
            Ok((body, WriteMeta { request_time_ms: elapsed_ms }))
        },
    }
}

fn read_index(wait_index: u64, headers: &Vec<(String, String)>) -> (r: Result<u64, ResponseFault>)
    ensures
        r == index_of(wait_index, pairs_view(headers@)),
{
    match find_header(headers, "X-Consul-Index") {
        None => if wait_index > 0 {
            Err(ResponseFault::MissingIndex)
        } else {
            Ok(0)
        },
        Some(v) => match parse_u64(v.as_str()) {
            None => Err(ResponseFault::BadIndex),
            Some(n) => if n < wait_index {
                Err(ResponseFault::IndexWentBack)
            } else {
                Ok(n)
            },
        },
    }
}

fn read_known_leader(headers: &Vec<(String, String)>) -> (r: Result<bool, ResponseFault>)
    ensures
        r == known_leader_of(pairs_view(headers@)),
{
    match find_header(headers, "X-Consul-Knownleader") {
        None => Ok(false),
        Some(v) => {
            let yes = String::from_str("true");
            let no = String::from_str("false");
            if *v == yes {
                Ok(true)
            } else if *v == no {
                Ok(false)
            } else {
                Err(ResponseFault::BadKnownLeader)
            }
        },
    }
}

fn read_last_contact(headers: &Vec<(String, String)>) -> (r: Result<u64, ResponseFault>)
    ensures
        r == last_contact_of(pairs_view(headers@)),
{
    match find_header(headers, "X-Consul-Lastcontact") {
        None => Ok(0),
        Some(v) => match parse_u64(v.as_str()) {
            None => Err(ResponseFault::BadLastContact),
            Some(n) => Ok(n),
        },
    }
}

/// Reads the metadata of a successful read from its headers.
pub fn query_meta_from_headers(wait_index: u64, headers: &Vec<(String, String)>) -> (r: Result<
    QueryMeta,
    ResponseFault,
>)
    ensures
        r == query_meta_of(wait_index, pairs_view(headers@)),
{
    let last_index = read_index(wait_index, headers)?;
    let known_leader = read_known_leader(headers)?;
    let last_contact_ms = read_last_contact(headers)?;
    Ok(QueryMeta { last_index, known_leader, last_contact_ms })
}

/// Classifies the outcome of a read that waited on `wait_index`: the body and its
/// metadata on success, else the failure, never retried here.
pub fn read_response(wait_index: u64, outcome: HttpOutcome) -> (r: Result<
    (String, QueryMeta),
    Error,
>)
    ensures
        r == read_result(wait_index, outcome),
{
    match outcome {
        HttpOutcome::Failed(f) => Err(Error::Transport(f)),
        HttpOutcome::Completed { status, headers, body } => {
            if status < 200 || status >= 300 {
                Err(Error::Api { status, body })
            } else {
                match query_meta_from_headers(wait_index, &headers) {
                    Ok(m) => Ok((body, m)),
                    Err(f) => Err(Error::Transport(TransportFailure::Malformed(f))),
                }
            }
        },
    }
}

/// Classifies the outcome of a write whose single round trip took `elapsed_ms`.
pub fn write_response(outcome: HttpOutcome, elapsed_ms: u64) -> (r: Result<
    (String, WriteMeta),
    Error,
>)
    ensures
        r == write_result(outcome, elapsed_ms),
        r matches Ok((_, m)) ==> m.request_time_ms == elapsed_ms,
{
    match outcome {
        HttpOutcome::Failed(f) => Err(Error::Transport(f)),
        HttpOutcome::Completed { status, headers: _, body } => {
            if status < 200 || status >= 300 {
                Err(Error::Api { status, body })
            } else {
                Ok((body, WriteMeta { request_time_ms: elapsed_ms }))
            }
        },
    }
}

/// What a caller that watches a resource does after one read.
#[derive(Clone, Copy, Debug, PartialEq, Eq)]
pub enum WatchStep {
    /// Hand the value on, then wait on `next_index`.
    Deliver { next_index: u64 },
    /// Nothing changed, or the connection dropped: read again, waiting on `index`.
    Repoll { index: u64 },
    /// Give up and surface the error.
    Fail,
}

pub open spec fn watch_step_of(wait_index: u64, result: Result<(String, QueryMeta), Error>) -> WatchStep {
    match result {
        Ok((_, m)) => WatchStep::Deliver { next_index: m.last_index },
        Err(Error::Transport(TransportFailure::Timeout)) if wait_index > 0 => WatchStep::Repoll {
            index: wait_index,
        },
        Err(Error::Transport(TransportFailure::Connect(_))) if wait_index > 0 => WatchStep::Repoll {
            index: wait_index,
        },
        _ => WatchStep::Fail,
    }
}

/// Decides the next step of a watch after a read that waited on `wait_index`: a
/// timeout or a dropped connection on a blocking read means no change.
pub fn watch_step(wait_index: u64, result: &Result<(String, QueryMeta), Error>) -> (r: WatchStep)
    ensures
        r == watch_step_of(wait_index, *result),
{
    match result {
        Ok((_, m)) => WatchStep::Deliver { next_index: m.last_index },
        Err(Error::Transport(TransportFailure::Timeout)) if wait_index > 0 => WatchStep::Repoll {
            index: wait_index,
        },
        Err(Error::Transport(TransportFailure::Connect(_))) if wait_index > 0 => WatchStep::Repoll {
            index: wait_index,
        },
        _ => WatchStep::Fail,
    }
}

/// On a successful blocking read, the index is present in the headers, is what
/// the metadata reports, and is no lower than the index waited on.
pub proof fn blocking_read_index_present(wait_index: u64, hs: Pairs)
    requires
        wait_index > 0,
        query_meta_of(wait_index, hs) is Ok,
    ensures
        header_value(hs, "X-Consul-Index"@) matches Some(v) && parse_u64_spec(v) == Some(
            query_meta_of(wait_index, hs)->Ok_0.last_index,
        ),
        query_meta_of(wait_index, hs)->Ok_0.last_index >= wait_index,
{
}

/// The index the `i`-th read of a watch waits on, when the first waits on `start`
/// and each later one on the index the one before returned.
pub open spec fn chained_wait(start: u64, responses: Seq<Pairs>, i: int) -> u64
    decreases i,
{
    if i <= 0 {
        start
    } else {
        match query_meta_of(chained_wait(start, responses, i - 1), responses[i - 1]) {
            Ok(m) => m.last_index,
            Err(_) => 0,
        }
    }
}

/// Every read of the watch succeeded.
pub open spec fn chain_succeeds(start: u64, responses: Seq<Pairs>) -> bool {
    forall|i: int|
        0 <= i < responses.len() ==> (#[trigger] query_meta_of(
            chained_wait(start, responses, i),
            responses[i],
        )) is Ok
}

proof fn lemma_chain_step(start: u64, responses: Seq<Pairs>, i: int)
    requires
        chain_succeeds(start, responses),
        0 <= i < responses.len(),
    ensures
        chained_wait(start, responses, i) <= chained_wait(start, responses, i + 1),
{
    assert(query_meta_of(chained_wait(start, responses, i), responses[i]) is Ok);
}

/// Along a watch whose reads all succeed, the indices that the caller chains from
/// one read to the next never decrease.
pub proof fn watch_indices_never_decrease(start: u64, responses: Seq<Pairs>, i: int, j: int)
    requires
        chain_succeeds(start, responses),
        0 <= i <= j <= responses.len(),
    ensures
        chained_wait(start, responses, i) <= chained_wait(start, responses, j),
    decreases j - i,
{
    if i < j {
        lemma_chain_step(start, responses, i);
        watch_indices_never_decrease(start, responses, i + 1, j);
    }
}

} // verus!
