use consul::text::{decimal, name_matches, parse_u64};
use consul::{
    merge_query, plain_read_request, query_meta_from_headers, read_request, read_response, watch_step, write_request, write_response, Agent,
    Catalog, Client, Config, Error, HttpOutcome, Method, QueryMeta, QueryOptions, ResponseFault,
    TransportFailure, WatchStep, WriteMeta, WriteOptions,
};

fn config() -> Config {
    Config {
        address: "127.0.0.1:8500".to_string(),
        scheme: "http".to_string(),
        datacenter: None,
        token: None,
        http_timeout_ms: 30000,
    }
}

fn pairs(items: &[(&str, &str)]) -> Vec<(String, String)> {
    items.iter().map(|(k, v)| (k.to_string(), v.to_string())).collect()
}

fn ok_response(headers: &[(&str, &str)], body: &str) -> HttpOutcome {
    HttpOutcome::Completed { status: 200, headers: pairs(headers), body: body.to_string() }
}

#[test]
fn both_consistency_modes_are_rejected() {
    let opts = QueryOptions { allow_stale: true, require_consistent: true, ..Default::default() };
    assert_eq!(opts.validate(), Err(Error::InvalidOptions));
    let r = read_request("/v1/catalog/nodes", &config(), &Vec::new(), Some(&opts));
    assert_eq!(r, Err(Error::InvalidOptions));
    let client = Client::new(config());
    assert_eq!(client.nodes(Some(&opts)), Err(Error::InvalidOptions));
    assert_eq!(client.services(Some(&opts)), Err(Error::InvalidOptions));
}

#[test]
fn single_consistency_mode_is_accepted() {
    let stale = QueryOptions { allow_stale: true, ..Default::default() };
    let consistent = QueryOptions { require_consistent: true, ..Default::default() };
    assert_eq!(stale.validate(), Ok(()));
    assert_eq!(consistent.validate(), Ok(()));
    let r = read_request("/v1/x", &config(), &Vec::new(), Some(&consistent)).unwrap();
    assert_eq!(r.query, pairs(&[("consistent", "")]));
}

#[test]
fn option_keys_override_colliding_params() {
    let opts = QueryOptions {
        allow_stale: true,
        datacenter: Some("east".to_string()),
        ..Default::default()
    };
    let params = pairs(&[("dc", "west"), ("stale", "no"), ("filter", "x"), ("index", "9")]);
    let r = read_request("/v1/catalog/nodes", &config(), &params, Some(&opts)).unwrap();
    // `index` is only set by a blocking read, so the caller's value stays.
    assert_eq!(r.query, pairs(&[("filter", "x"), ("index", "9"), ("stale", ""), ("dc", "east")]));
}

#[test]
fn merge_keeps_params_without_collision() {
    let params = pairs(&[("a", "1"), ("b", "2"), ("a", "3")]);
    let merged = merge_query(&params, pairs(&[("b", "9")]));
    assert_eq!(merged, pairs(&[("a", "1"), ("a", "3"), ("b", "9")]));
    assert_eq!(merge_query(&Vec::new(), Vec::new()), Vec::new());
}

#[test]
fn blocking_read_carries_index_and_wait() {
    let opts = QueryOptions { wait_index: 5, wait_time_ms: Some(10000), ..Default::default() };
    let r = read_request("/v1/catalog/nodes", &config(), &Vec::new(), Some(&opts)).unwrap();
    assert_eq!(r.method, Method::Get);
    assert_eq!(r.url, "http://127.0.0.1:8500/v1/catalog/nodes");
    assert_eq!(r.query, pairs(&[("index", "5"), ("wait", "10000ms")]));
    assert_eq!(r.wait_index, 5);
    assert_eq!(r.timeout_ms, 30000);
    let no_block = QueryOptions { wait_index: 0, wait_time_ms: Some(10000), ..Default::default() };
    let r = read_request("/v1/catalog/nodes", &config(), &Vec::new(), Some(&no_block)).unwrap();
    assert!(r.query.is_empty());
}

#[test]
fn datacenter_and_token_fall_back_to_config() {
    let mut cfg = config();
    cfg.datacenter = Some("dc1".to_string());
    cfg.token = Some("base".to_string());
    let r = read_request("/v1/x", &cfg, &Vec::new(), None).unwrap();
    assert_eq!(r.query, pairs(&[("dc", "dc1")]));
    assert_eq!(r.token, Some("base".to_string()));
    let opts = QueryOptions {
        datacenter: Some("dc2".to_string()),
        token: Some("mine".to_string()),
        ..Default::default()
    };
    let r = read_request("/v1/x", &cfg, &Vec::new(), Some(&opts)).unwrap();
    assert_eq!(r.query, pairs(&[("dc", "dc2")]));
    assert_eq!(r.token, Some("mine".to_string()));
    let w = WriteOptions { datacenter: None, token: Some("w".to_string()) };
    let r = write_request("/v1/y", None, &cfg, &pairs(&[("dc", "zz")]), Some(&w));
    assert_eq!(r.query, pairs(&[("dc", "dc1")]));
    assert_eq!(r.token, Some("w".to_string()));
    assert_eq!(r.method, Method::Put);
}

#[test]
fn read_catalog_nodes_returns_header_index() {
    let client = Client::new(config());
    let req = client.nodes(None).unwrap();
    assert_eq!(req.url, "http://127.0.0.1:8500/v1/catalog/nodes");
    assert!(req.query.is_empty());
    let body = r#"[{"Node":"n1","Address":"10.0.0.1"},{"Node":"n2","Address":"10.0.0.2"}]"#;
    let outcome = ok_response(
        &[("X-Consul-Index", "42"), ("X-Consul-Knownleader", "true"), ("X-Consul-Lastcontact", "7")],
        body,
    );
    let (text, meta) = read_response(req.wait_index, outcome).unwrap();
    assert_eq!(meta, QueryMeta { last_index: 42, known_leader: true, last_contact_ms: 7 });
    let nodes: serde_json::Value = serde_json::from_str(&text).unwrap();
    assert_eq!(nodes.as_array().unwrap().len(), 2);
}

#[test]
fn blocking_read_timeout_is_transport_error() {
    let opts = QueryOptions { wait_index: 5, wait_time_ms: Some(10000), ..Default::default() };
    let req = read_request("/v1/catalog/nodes", &config(), &Vec::new(), Some(&opts)).unwrap();
    let r = read_response(req.wait_index, HttpOutcome::Failed(TransportFailure::Timeout));
    assert_eq!(r, Err(Error::Transport(TransportFailure::Timeout)));
    assert_eq!(watch_step(req.wait_index, &r), WatchStep::Repoll { index: 5 });
    assert_eq!(watch_step(0, &r), WatchStep::Fail);
}

#[test]
fn write_maintenance_without_body() {
    let client = Client::new(config());
    let req = client.maintenance_mode(true, None);
    assert_eq!(req.method, Method::Put);
    assert_eq!(req.url, "http://127.0.0.1:8500/v1/agent/maintenance");
    assert_eq!(req.query, pairs(&[("enabled", "true")]));
    assert_eq!(req.body, None);
    let r = write_response(ok_response(&[], ""), 12);
    assert_eq!(r, Ok((String::new(), WriteMeta { request_time_ms: 12 })));
    let off = client.maintenance_mode(false, Some("upgrade"));
    assert_eq!(off.query, pairs(&[("enabled", "false"), ("reason", "upgrade")]));
}

#[test]
fn write_time_is_the_measured_round_trip() {
    assert_eq!(write_response(ok_response(&[], "true"), 0).unwrap().1.request_time_ms, 0);
    assert_eq!(write_response(ok_response(&[], "true"), 250).unwrap().1.request_time_ms, 250);
}

#[test]
fn watch_chain_indices_do_not_decrease() {
    let first = read_response(0, ok_response(&[("X-Consul-Index", "10")], "[]")).unwrap();
    let next = match watch_step(0, &Ok(first.clone())) {
        WatchStep::Deliver { next_index } => next_index,
        other => panic!("unexpected {:?}", other),
    };
    assert_eq!(next, 10);
    let second = read_response(next, ok_response(&[("X-Consul-Index", "10")], "[]")).unwrap();
    assert_eq!(second.1.last_index, 10);
    assert_eq!(second.0, first.0);
    let third = read_response(10, ok_response(&[("X-Consul-Index", "12")], "[1]")).unwrap();
    assert_eq!(third.1.last_index, 12);
    let back = read_response(12, ok_response(&[("X-Consul-Index", "3")], "[]"));
    assert_eq!(
        back,
        Err(Error::Transport(TransportFailure::Malformed(ResponseFault::IndexWentBack)))
    );
    assert_eq!(watch_step(12, &back), WatchStep::Fail);
}

#[test]
fn blocking_read_requires_index() {
    let r = read_response(4, ok_response(&[], "[]"));
    assert_eq!(r, Err(Error::Transport(TransportFailure::Malformed(ResponseFault::MissingIndex))));
    let (_, meta) = read_response(0, ok_response(&[], "[]")).unwrap();
    assert_eq!(meta, QueryMeta { last_index: 0, known_leader: false, last_contact_ms: 0 });
}

#[test]
fn malformed_headers_are_reported() {
    let bad = |h: &[(&str, &str)]| read_response(0, ok_response(h, "[]"));
    let fault = |f| Err(Error::Transport(TransportFailure::Malformed(f)));
    assert_eq!(bad(&[("X-Consul-Index", "abc")]), fault(ResponseFault::BadIndex));
    assert_eq!(bad(&[("X-Consul-Index", "")]), fault(ResponseFault::BadIndex));
    assert_eq!(bad(&[("X-Consul-Knownleader", "maybe")]), fault(ResponseFault::BadKnownLeader));
    assert_eq!(bad(&[("X-Consul-Lastcontact", "-1")]), fault(ResponseFault::BadLastContact));
}

#[test]
fn header_names_ignore_case() {
    let (_, meta) = read_response(
        0,
        ok_response(&[("x-consul-index", "77"), ("X-CONSUL-KNOWNLEADER", "false")], "{}"),
    )
    .unwrap();
    assert_eq!(meta.last_index, 77);
    assert!(name_matches("X-Consul-Index", "x-consul-index"));
    assert!(!name_matches("X-Consul-Index", "X-Consul-Indexx"));
    assert!(!name_matches("a", "b"));
}

#[test]
fn refused_requests_are_api_errors() {
    let outcome = HttpOutcome::Completed {
        status: 404,
        headers: pairs(&[("X-Consul-Index", "1")]),
        body: "no such node".to_string(),
    };
    assert_eq!(
        read_response(0, outcome.clone()),
        Err(Error::Api { status: 404, body: "no such node".to_string() })
    );
    assert_eq!(
        write_response(outcome, 3),
        Err(Error::Api { status: 404, body: "no such node".to_string() })
    );
    let e = write_response(HttpOutcome::Failed(TransportFailure::Connect("refused".to_string())), 1);
    assert_eq!(e, Err(Error::Transport(TransportFailure::Connect("refused".to_string()))));
    let r = read_response(
        3,
        HttpOutcome::Completed { status: 500, headers: Vec::new(), body: String::new() },
    );
    assert_eq!(watch_step(3, &r), WatchStep::Fail);
}

#[test]
fn decimal_rendering() {
    assert_eq!(decimal(0), "0");
    assert_eq!(decimal(7), "7");
    assert_eq!(decimal(1234567890), "1234567890");
    assert_eq!(decimal(u64::MAX), "18446744073709551615");
}

#[test]
fn decimal_parsing() {
    assert_eq!(parse_u64("0"), Some(0));
    assert_eq!(parse_u64("00042"), Some(42));
    assert_eq!(parse_u64("18446744073709551615"), Some(u64::MAX));
    assert_eq!(parse_u64("18446744073709551616"), None);
    assert_eq!(parse_u64(""), None);
    assert_eq!(parse_u64("12a"), None);
    assert_eq!(parse_u64("+1"), None);
}

#[test]
fn agent_requests() {
    let client = Client::new(config());
    let r = client.checks();
    assert_eq!((r.method, r.url.as_str()), (Method::Get, "http://127.0.0.1:8500/v1/agent/checks"));
    assert_eq!(client.members(true).query, pairs(&[("wan", "1")]));
    assert!(client.members(false).query.is_empty());
    let j = client.join("10.1.2.3", true);
    assert_eq!(j.url, "http://127.0.0.1:8500/v1/agent/join/10.1.2.3");
    assert_eq!(j.query, pairs(&[("wan", "true")]));
    assert_eq!(j.method, Method::Put);
    assert_eq!(client.reload().url, "http://127.0.0.1:8500/v1/agent/reload");
    assert_eq!(client.leave().url, "http://127.0.0.1:8500/v1/agent/leave");
    assert_eq!(client.force_leave().url, "http://127.0.0.1:8500/v1/agent/force-leave");
}

#[test]
fn catalog_requests() {
    let client = Client::new(config());
    let w = WriteOptions { datacenter: Some("dc3".to_string()), token: None };
    let r = client.register("{\"Node\":\"n1\"}".to_string(), Some(&w));
    assert_eq!(r.url, "http://127.0.0.1:8500/v1/catalog/register");
    assert_eq!(r.body, Some("{\"Node\":\"n1\"}".to_string()));
    assert_eq!(r.query, pairs(&[("dc", "dc3")]));
    let d = client.deregister("{}".to_string(), None);
    assert_eq!(d.url, "http://127.0.0.1:8500/v1/catalog/deregister");
    assert_eq!(client.datacenters().url, "http://127.0.0.1:8500/v1/catalog/datacenters");
    let s = client.services(None).unwrap();
    assert_eq!(s.url, "http://127.0.0.1:8500/v1/catalog/services");
}

#[test]
fn metadata_from_headers() {
    let hs = pairs(&[("X-Consul-Lastcontact", "15"), ("X-Consul-Index", "9"), ("X-Consul-Index", "1")]);
    assert_eq!(
        query_meta_from_headers(9, &hs),
        Ok(QueryMeta { last_index: 9, known_leader: false, last_contact_ms: 15 })
    );
    assert_eq!(query_meta_from_headers(10, &hs), Err(ResponseFault::IndexWentBack));
}

#[test]
fn plain_read_uses_config_only() {
    let mut cfg = config();
    cfg.scheme = "https".to_string();
    cfg.token = Some("t".to_string());
    let r = plain_read_request("/v1/status/leader", &cfg, &pairs(&[("dc", "mine")]));
    assert_eq!(r.url, "https://127.0.0.1:8500/v1/status/leader");
    assert_eq!(r.query, pairs(&[("dc", "mine")]));
    assert_eq!(r.token, Some("t".to_string()));
    assert_eq!(r.wait_index, 0);
    assert_eq!(r.body, None);
}
