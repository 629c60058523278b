//! Transport core of a client for a service-registry HTTP API: request
//! building, blocking-query metadata and outcome classification.

pub mod agent;
pub mod catalog;
pub mod client;
pub mod error;
pub mod options;
pub mod request;
pub mod response;
pub mod text;

pub use agent::{Agent, AgentCheck, AgentMember, AgentService};
pub use catalog::{
    Catalog, CatalogDeregistration, CatalogNode, CatalogRegistration, CatalogService, Node, Weights,
};
pub use client::Client;
pub use error::{Error, ResponseFault, TransportFailure};
pub use options::{Config, QueryOptions, WriteOptions};
pub use request::{merge_query, plain_read_request, read_request, write_request, Method, Request};
pub use response::{
    query_meta_from_headers, read_response, watch_step, write_response, HttpOutcome, QueryMeta,
    WatchStep, WriteMeta,
};
