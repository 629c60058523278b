//! Endpoints of the catalog: registration and listings of nodes and services.
use std::collections::HashMap;

use vstd::prelude::*;

use crate::agent::{AgentCheck, AgentService};
use crate::client::Client;
use crate::error::Error;
use crate::options::{Config, QueryOptions, WriteOptions};
use crate::request::{
    deref_query, deref_write, is_read_request, is_write_request, no_params, plain_read_request,
    read_request,
    write_request, Request,
};

verus! {

/// Load-balancing weights of a service by health state.
#[allow(non_snake_case)]
#[derive(Clone, Default, Eq, PartialEq, Debug)]
pub struct Weights {
    pub Passing: u32,
    pub Warning: u32,
}

/// A node of the catalog.
#[allow(non_snake_case)]
#[derive(Clone, Default, Eq, PartialEq, Debug)]
pub struct Node {
    pub ID: String,
    pub Node: String,
    pub Address: String,
    pub Datacenter: String,
    pub TaggedAddresses: HashMap<String, String>,
    pub Meta: HashMap<String, String>,
    pub CreateIndex: u64,
    pub ModifyIndex: u64,
}

/// A service instance of the catalog, with its node.
#[allow(non_snake_case)]
#[derive(Clone, Default, Eq, PartialEq, Debug)]
pub struct CatalogService {
    pub ID: String,
    pub Node: String,
    pub Address: String,
    pub Datacenter: String,
    pub TaggedAddresses: HashMap<String, String>,
    pub NodeMeta: HashMap<String, String>,
    pub ServiceID: String,
    pub ServiceName: String,
    pub ServiceAddress: String,
    pub ServiceTags: Vec<String>,
    pub ServiceMeta: HashMap<String, String>,
    pub ServicePort: u32,
    pub ServiceWeights: Weights,
    pub ServiceEnableTagOverride: bool,
    pub CreateIndex: u64,
    pub ModifyIndex: u64,
}

/// A node with the services registered on it.
#[allow(non_snake_case)]
#[derive(Clone, Default, Eq, PartialEq, Debug)]
pub struct CatalogNode {
    pub Node: Option<Node>,
    pub Services: HashMap<String, AgentService>,
}

/// What a catalog registration writes: a node, and optionally a service and a check.
#[allow(non_snake_case)]
#[derive(Clone, Default, Eq, PartialEq, Debug)]
pub struct CatalogRegistration {
    pub ID: String,
    pub Node: String,
    pub Address: String,
    pub TaggedAddresses: HashMap<String, String>,
    pub NodeMeta: HashMap<String, String>,
    pub Datacenter: String,
    pub Service: Option<AgentService>,
    pub Check: Option<AgentCheck>,
    pub SkipNodeUpdate: bool,
}

/// What a catalog deregistration removes: a node, or one of its services or checks.
#[allow(non_snake_case)]
#[derive(Clone, Default, Eq, PartialEq, Debug)]
pub struct CatalogDeregistration {
    pub Node: String,
    pub Address: String,
    pub Datacenter: String,
    pub ServiceID: String,
    pub CheckID: String,
}

/// Requests to the catalog. Bodies are the JSON text of a `CatalogRegistration` or
/// a `CatalogDeregistration`.
pub trait Catalog {
    /// The settings the requests start from.
    spec fn catalog_config(&self) -> Config;

    /// Registers a node, service or check.
    fn register(&self, reg: String, q: Option<&WriteOptions>) -> (r: Request)
        ensures
            is_write_request(
                r,
                "/v1/catalog/register"@,
                Some(reg),
                self.catalog_config(),
                seq![],
                deref_write(q),
            ),
    ;

    /// Removes a node, service or check.
    fn deregister(&self, dereg: String, q: Option<&WriteOptions>) -> (r: Request)
        ensures
            is_write_request(
                r,
                "/v1/catalog/deregister"@,
                Some(dereg),
                self.catalog_config(),
                seq![],
                deref_write(q),
            ),
    ;

    /// Lists the known datacenters.
    fn datacenters(&self) -> (r: Request)
        ensures
            is_read_request(r, "/v1/catalog/datacenters"@, self.catalog_config(), seq![], None),
    ;

    /// Lists the nodes; fails when the options ask for two consistency modes.
    fn nodes(&self, q: Option<&QueryOptions>) -> (r: Result<Request, Error>)
        ensures
            r is Err <==> (q matches Some(o) && !o.is_valid()),
            r matches Err(e) ==> e == Error::InvalidOptions,
            r matches Ok(req) ==> is_read_request(
                req,
                "/v1/catalog/nodes"@,
                self.catalog_config(),
                seq![],
                deref_query(q),
            ),
    ;

    /// Lists the services and their tags; fails when the options ask for two
    /// consistency modes.
    fn services(&self, q: Option<&QueryOptions>) -> (r: Result<Request, Error>)
        ensures
            r is Err <==> (q matches Some(o) && !o.is_valid()),
            r matches Err(e) ==> e == Error::InvalidOptions,
            r matches Ok(req) ==> is_read_request(
                req,
                "/v1/catalog/services"@,
                self.catalog_config(),
                seq![],
                deref_query(q),
            ),
    ;
}

impl Catalog for Client {
    open spec fn catalog_config(&self) -> Config {
        self.config
    }

    fn register(&self, reg: String, q: Option<&WriteOptions>) -> (r: Request) {
        let params = no_params();
        write_request("/v1/catalog/register", Some(reg), &self.config, &params, q)
    }

    fn deregister(&self, dereg: String, q: Option<&WriteOptions>) -> (r: Request) {
        let params = no_params();
        write_request("/v1/catalog/deregister", Some(dereg), &self.config, &params, q)
    }

    fn datacenters(&self) -> (r: Request) {
        let params = no_params();
        plain_read_request("/v1/catalog/datacenters", &self.config, &params)
    }

    fn nodes(&self, q: Option<&QueryOptions>) -> (r: Result<Request, Error>) {
        let params = no_params();
        read_request("/v1/catalog/nodes", &self.config, &params, q)
    }

    fn services(&self, q: Option<&QueryOptions>) -> (r: Result<Request, Error>) {
        let params = no_params();
        read_request("/v1/catalog/services", &self.config, &params, q)
    }
}

} // verus!
