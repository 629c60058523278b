//! Turning a path, caller parameters, settings and options into a request.
use vstd::prelude::*;
use vstd::string::*;

use crate::error::Error;
use crate::options::{choose_string, either, opt_view, Config, QueryOptions, WriteOptions};
use crate::text::{decimal, decimal_of, pairs_view};

verus! {

/// HTTP method of a request.
#[derive(Clone, Copy, Debug, PartialEq, Eq)]
pub enum Method {
    Get,
    Put,
}

/// Everything needed to send one HTTP call; building it performs no I/O.
#[derive(Clone, Debug, PartialEq, Eq)]
pub struct Request {
    pub method: Method,
    /// Scheme, address and path, without the query string.
    pub url: String,
    /// Query pairs, not yet percent-encoded.
    pub query: Vec<(String, String)>,
    /// Value of the authentication header, if any.
    pub token: Option<String>,
    /// JSON body of a write.
    pub body: Option<String>,
    /// Upper bound on the call, in milliseconds.
    pub timeout_ms: u64,
    /// Index a read blocks on; 0 when it does not block.
    pub wait_index: u64,
}

pub type Pairs = Seq<(Seq<char>, Seq<char>)>;

/// The keys of a list of pairs, in order.
pub open spec fn keys_of(q: Pairs) -> Seq<Seq<char>> {
    q.map_values(|p: (Seq<char>, Seq<char>)| p.0)
}

/// The pairs of `ps` whose key is not among `keys`, in order.
pub open spec fn without_keys(ps: Pairs, keys: Seq<Seq<char>>) -> Pairs
    decreases ps.len(),
{
    if ps.len() == 0 {
        seq![]
    } else {
        let rest = without_keys(ps.drop_last(), keys);
        if keys.contains(ps.last().0) {
            rest
        } else {
            rest.push(ps.last())
        }
    }
}

/// Caller parameters, less those whose key an option sets, then the option pairs.
pub open spec fn merged_query(params: Pairs, derived: Pairs) -> Pairs {
    without_keys(params, keys_of(derived)) + derived
}

pub open spec fn flag_pair(key: Seq<char>, on: bool) -> Pairs {
    if on {
        seq![(key, Seq::<char>::empty())]
    } else {
        seq![]
    }
}

pub open spec fn dc_pair(dc: Option<Seq<char>>) -> Pairs {
    match dc {
        Some(d) => seq![("dc"@, d)],
        None => seq![],
    }
}

/// `index` and `wait` of a blocking read, nothing otherwise.
pub open spec fn blocking_pairs(o: QueryOptions) -> Pairs {
    if o.wait_index > 0 {
        seq![("index"@, decimal_of(o.wait_index as nat))] + match o.wait_time_ms {
            Some(ms) => seq![("wait"@, decimal_of(ms as nat) + "ms"@)],
            None => seq![],
        }
    } else {
        seq![]
    }
}

/// The query pairs that the options of a read (or their absence) call for.
pub open spec fn read_option_pairs(options: Option<QueryOptions>, config: Config) -> Pairs {
    match options {
        Some(o) => blocking_pairs(o) + flag_pair("stale"@, o.allow_stale) + flag_pair(
            "consistent"@,
            o.require_consistent,
        ) + dc_pair(either(o.datacenter, config.datacenter)),
        None => dc_pair(opt_view(config.datacenter)),
    }
}

/// The query pairs that the options of a write (or their absence) call for.
pub open spec fn write_option_pairs(options: Option<WriteOptions>, config: Config) -> Pairs {
    match options {
        Some(o) => dc_pair(either(o.datacenter, config.datacenter)),
        None => dc_pair(opt_view(config.datacenter)),
    }
}

pub open spec fn url_of(config: Config, path: Seq<char>) -> Seq<char> {
    config.scheme@ + "://"@ + config.address@ + path
}

pub open spec fn read_token(options: Option<QueryOptions>, config: Config) -> Option<Seq<char>> {
    match options {
        Some(o) => either(o.token, config.token),
        None => opt_view(config.token),
    }
}

pub open spec fn write_token(options: Option<WriteOptions>, config: Config) -> Option<Seq<char>> {
    match options {
        Some(o) => either(o.token, config.token),
        None => opt_view(config.token),
    }
}

pub open spec fn deref_query(options: Option<&QueryOptions>) -> Option<QueryOptions> {
    match options {
        Some(o) => Some(*o),
        None => None,
    }
}

pub open spec fn deref_write(options: Option<&WriteOptions>) -> Option<WriteOptions> {
    match options {
        Some(o) => Some(*o),
        None => None,
    }
}

/// `req` is the read of `path` with these parameters, settings and (valid) options.
pub open spec fn is_read_request(
    req: Request,
    path: Seq<char>,
    config: Config,
    params: Pairs,
    options: Option<QueryOptions>,
) -> bool {
    &&& req.method == Method::Get
    &&& req.url@ == url_of(config, path)
    &&& pairs_view(req.query@) == merged_query(params, read_option_pairs(options, config))
    &&& opt_view(req.token) == read_token(options, config)
    &&& req.body is None
    &&& req.timeout_ms == config.http_timeout_ms
    &&& req.wait_index == match options {
        Some(o) => o.wait_index,
        None => 0,
    }
}

/// `req` is the write of `body` to `path` with these parameters, settings and options.
pub open spec fn is_write_request(
    req: Request,
    path: Seq<char>,
    body: Option<String>,
    config: Config,
    params: Pairs,
    options: Option<WriteOptions>,
) -> bool {
    &&& req.method == Method::Put
    &&& req.url@ == url_of(config, path)
    &&& pairs_view(req.query@) == merged_query(params, write_option_pairs(options, config))
    &&& opt_view(req.token) == write_token(options, config)
    &&& req.body == body
    &&& req.timeout_ms == config.http_timeout_ms
    &&& req.wait_index == 0
}

fn pair(k: &str, v: String) -> (r: (String, String))
    ensures
        r.0@ == k@,
        r.1@ == v@,
{
    (String::from_str(k), v)
}

fn push_pair(q: &mut Vec<(String, String)>, k: &str, v: String)
    ensures
        pairs_view(final(q)@) == pairs_view(old(q)@).push((k@, v@)),
{
    let p = pair(k, v);
    q.push(p);
    assert(pairs_view(final(q)@) =~= pairs_view(old(q)@).push((k@, v@)));
}

fn push_dc(q: &mut Vec<(String, String)>, dc: Option<String>)
    ensures
        pairs_view(final(q)@) == pairs_view(old(q)@) + dc_pair(opt_view(dc)),
{
    match dc {
        Some(d) => {
            push_pair(q, "dc", d);
        },
        None => {},
    }
    assert(pairs_view(final(q)@) =~= pairs_view(old(q)@) + dc_pair(opt_view(dc)));
}

/// Builds the query pairs that the options of a read call for.
fn read_pairs(options: Option<&QueryOptions>, config: &Config) -> (r: Vec<(String, String)>)
    ensures
        pairs_view(r@) == read_option_pairs(deref_query(options), *config),
{
    let mut q: Vec<(String, String)> = Vec::new();
    match options {
        Some(o) => {
            let ghost v0 = pairs_view(q@);
            if o.wait_index > 0 {
                push_pair(&mut q, "index", decimal(o.wait_index));
                match o.wait_time_ms {
                    Some(ms) => {
                        let mut w = decimal(ms);
                        w.append("ms");
                        push_pair(&mut q, "wait", w);
                    },
                    None => {},
                }
            }
            assert(pairs_view(q@) =~= v0 + blocking_pairs(*o));
            let ghost v1 = pairs_view(q@);
            if o.allow_stale {
                push_pair(&mut q, "stale", String::new());
            }
            assert(pairs_view(q@) =~= v1 + flag_pair("stale"@, o.allow_stale));
            let ghost v2 = pairs_view(q@);
            if o.require_consistent {
                push_pair(&mut q, "consistent", String::new());
            }
            assert(pairs_view(q@) =~= v2 + flag_pair("consistent"@, o.require_consistent));
            push_dc(&mut q, choose_string(&o.datacenter, &config.datacenter));
            assert(pairs_view(q@) =~= read_option_pairs(deref_query(options), *config));
        },
        None => {
            push_dc(&mut q, config.datacenter.clone());
            assert(pairs_view(q@) =~= read_option_pairs(deref_query(options), *config));
        },
    }
    q
}

/// Builds the query pairs that the options of a write call for.
fn write_pairs(options: Option<&WriteOptions>, config: &Config) -> (r: Vec<(String, String)>)
    ensures
        pairs_view(r@) == write_option_pairs(deref_write(options), *config),
{
    let mut q: Vec<(String, String)> = Vec::new();
    match options {
        Some(o) => push_dc(&mut q, choose_string(&o.datacenter, &config.datacenter)),
        None => push_dc(&mut q, config.datacenter.clone()),
    }
    assert(pairs_view(q@) =~= write_option_pairs(deref_write(options), *config));
    q
}

/// Whether some pair of `q` has the key `key`.
fn has_key(q: &Vec<(String, String)>, key: &String) -> (r: bool)
    ensures
        r == keys_of(pairs_view(q@)).contains(key@),
{
    let ghost ks = keys_of(pairs_view(q@));
    let mut i: usize = 0;
    while i < q.len()
        invariant
            ks == keys_of(pairs_view(q@)),
            i <= q.len(),
            forall|j: int| 0 <= j < i ==> ks[j] != key@,
        decreases q.len() - i,
    {
        if q[i].0 == *key {
            assert(ks[i as int] == key@);
            return true;
        }
        i = i + 1;
    }
    proof {
        if ks.contains(key@) {
            let j = choose|j: int| 0 <= j < ks.len() && ks[j] == key@;
            assert(ks[j] != key@);
        }
    }
    false
}

/// Merges caller parameters with option pairs; on a shared key the option wins.
pub fn merge_query(params: &Vec<(String, String)>, derived: Vec<(String, String)>) -> (r: Vec<
    (String, String),
>)
    ensures
        pairs_view(r@) == merged_query(pairs_view(params@), pairs_view(derived@)),
{
    let ghost pv = pairs_view(params@);
    let ghost ks = keys_of(pairs_view(derived@));
    let mut out: Vec<(String, String)> = Vec::new();
    let mut i: usize = 0;
    assert(pv.take(0) =~= Seq::<(Seq<char>, Seq<char>)>::empty());
    while i < params.len()
        invariant
            pv == pairs_view(params@),
            ks == keys_of(pairs_view(derived@)),
            i <= params.len(),
            pairs_view(out@) == without_keys(pv.take(i as int), ks),
        decreases params.len() - i,
    {
        let p = &params[i];
        assert(pv.take(i + 1).drop_last() =~= pv.take(i as int));
        assert(pv.take(i + 1).last() == (p.0@, p.1@));
        if !has_key(&derived, &p.0) {
            let ghost before = out@;
            out.push((p.0.clone(), p.1.clone()));
            assert(pairs_view(out@) =~= pairs_view(before).push((p.0@, p.1@)));
        }
        i = i + 1;
    }
    assert(pv.take(params.len() as int) =~= pv);
    let ghost front = out@;
    let mut rest = derived;
    out.append(&mut rest);
    assert(pairs_view(out@) =~= pairs_view(front) + pairs_view(derived@));
    out
}

/// An empty parameter list.
pub(crate) fn no_params() -> (r: Vec<(String, String)>)
    ensures
        pairs_view(r@) == Seq::<(Seq<char>, Seq<char>)>::empty(),
{
    let r: Vec<(String, String)> = Vec::new();
    assert(pairs_view(r@) =~= Seq::<(Seq<char>, Seq<char>)>::empty());
    r
}

fn url_for(config: &Config, path: &str) -> (r: String)
    ensures
        r@ == url_of(*config, path@),
{
    let mut url = config.scheme.clone();
    url.append("://");
    url.append(config.address.as_str());
    url.append(path);
    url
}

/// Builds a read with no options: settings' datacenter and token, no blocking.
pub fn plain_read_request(path: &str, config: &Config, params: &Vec<(String, String)>) -> (r:
    Request)
    ensures
        is_read_request(r, path@, *config, pairs_view(params@), None),
{
    let query = merge_query(params, read_pairs(None, config));
    Request {
        method: Method::Get,
        url: url_for(config, path),
        query,
        token: config.token.clone(),
        body: None,
        timeout_ms: config.http_timeout_ms,
        wait_index: 0,
    }
}

/// Builds a read; fails with `InvalidOptions`, before any I/O, when the options
/// ask for both stale and consistent reads.
pub fn read_request(
    path: &str,
    config: &Config,
    params: &Vec<(String, String)>,
    options: Option<&QueryOptions>,
) -> (r: Result<Request, Error>)
    ensures
        r is Err <==> (options matches Some(o) && !o.is_valid()),
        r matches Err(e) ==> e == Error::InvalidOptions,
        r matches Ok(req) ==> is_read_request(
            req,
            path@,
            *config,
            pairs_view(params@),
            deref_query(options),
        ),
{
    match options {
        None => Ok(plain_read_request(path, config, params)),
        Some(o) => {
            o.validate()?;
            let query = merge_query(params, read_pairs(options, config));
            Ok(
                Request {
                    method: Method::Get,
                    url: url_for(config, path),
                    query,
                    token: choose_string(&o.token, &config.token),
                    body: None,
                    timeout_ms: config.http_timeout_ms,
                    wait_index: o.wait_index,
                },
            )
        },
    }
}

/// Builds a write of `body` (JSON text, if any) to `path`.
pub fn write_request(
    path: &str,
    body: Option<String>,
    config: &Config,
    params: &Vec<(String, String)>,
    options: Option<&WriteOptions>,
) -> (r: Request)
    ensures
        is_write_request(r, path@, body, *config, pairs_view(params@), deref_write(options)),
{
    let token = match options {
        Some(o) => choose_string(&o.token, &config.token),
        None => config.token.clone(),
    };
    let query = merge_query(params, write_pairs(options, config));
    Request {
        method: Method::Put,
        url: url_for(config, path),
        query,
        token,
        body,
        timeout_ms: config.http_timeout_ms,
        wait_index: 0,
    }
}

proof fn lemma_without_keys_contains(ps: Pairs, keys: Seq<Seq<char>>, p: (Seq<char>, Seq<char>))
    ensures
        without_keys(ps, keys).contains(p) <==> (ps.contains(p) && !keys.contains(p.0)),
    decreases ps.len(),
{
    if ps.len() > 0 {
        let init = ps.drop_last();
        lemma_without_keys_contains(init, keys, p);
        assert(ps =~= init.push(ps.last()));
        if ps.contains(p) && p != ps.last() {
            let j = choose|j: int| 0 <= j < ps.len() && ps[j] == p;
            assert(init[j] == p);
        }
        if init.contains(p) {
            let j = choose|j: int| 0 <= j < init.len() && init[j] == p;
            assert(ps[j] == p);
        }
        let rest = without_keys(init, keys);
        if !keys.contains(ps.last().0) {
            if rest.push(ps.last()).contains(p) && p != ps.last() {
                let j = choose|j: int| 0 <= j < rest.len() + 1 && rest.push(ps.last())[j] == p;
                assert(rest[j] == p);
            }
            if rest.contains(p) {
                let j = choose|j: int| 0 <= j < rest.len() && rest[j] == p;
                assert(rest.push(ps.last())[j] == p);
            }
            assert(rest.push(ps.last())[rest.len() as int] == ps.last());
        }
        assert(ps[ps.len() - 1] == ps.last());
    }
}

proof fn lemma_concat_contains(a: Pairs, b: Pairs, p: (Seq<char>, Seq<char>))
    ensures
        (a + b).contains(p) <==> (a.contains(p) || b.contains(p)),
{
    if (a + b).contains(p) {
        let j = choose|j: int| 0 <= j < (a + b).len() && (a + b)[j] == p;
        if j < a.len() {
            assert(a[j] == p);
        } else {
            assert(b[j - a.len()] == p);
        }
    }
    if a.contains(p) {
        let j = choose|j: int| 0 <= j < a.len() && a[j] == p;
        assert((a + b)[j] == p);
    }
    if b.contains(p) {
        let j = choose|j: int| 0 <= j < b.len() && b[j] == p;
        assert((a + b)[a.len() + j] == p);
    }
}

/// A query key that the options set always carries the options' value: a caller
/// parameter with that key is dropped, and every other caller parameter is kept.
pub proof fn option_keys_override_params(params: Pairs, derived: Pairs)
    ensures
        forall|p: (Seq<char>, Seq<char>)|
            #![trigger merged_query(params, derived).contains(p)]
            keys_of(derived).contains(p.0) ==> (merged_query(params, derived).contains(p)
                <==> derived.contains(p)),
        forall|p: (Seq<char>, Seq<char>)|
            #![trigger merged_query(params, derived).contains(p)]
            !keys_of(derived).contains(p.0) ==> (merged_query(params, derived).contains(p)
                <==> params.contains(p)),
{
    let ks = keys_of(derived);
    assert forall|p: (Seq<char>, Seq<char>)| #[trigger]
        merged_query(params, derived).contains(p) <==> ((params.contains(p) && !ks.contains(p.0))
            || derived.contains(p)) by {
        lemma_without_keys_contains(params, ks, p);
        lemma_concat_contains(without_keys(params, ks), derived, p);
    }
    assert forall|p: (Seq<char>, Seq<char>)| derived.contains(p) implies ks.contains(p.0) by {
        let j = choose|j: int| 0 <= j < derived.len() && derived[j] == p;
        assert(ks[j] == p.0);
    }
}

} // verus!
