//! Endpoints of the local agent: its checks, members and lifecycle.
use std::collections::HashMap;

use vstd::prelude::*;
use vstd::string::*;

use crate::client::Client;
use crate::options::Config;
use crate::request::{
    is_read_request, is_write_request, no_params, plain_read_request, write_request, Pairs, Request,
};
use crate::text::pairs_view;

verus! {

/// A health check as the agent reports it.
#[allow(non_snake_case)]
#[derive(Clone, Default, Eq, PartialEq, Debug)]
pub struct AgentCheck {
    pub Node: String,
    pub CheckID: String,
    pub Name: String,
    pub Status: String,
    pub Notes: String,
    pub Output: String,
    pub ServiceID: String,
    pub ServiceName: String,
}

/// A member of the gossip pool.
#[allow(non_snake_case)]
#[derive(Clone, Default, Eq, PartialEq, Debug)]
pub struct AgentMember {
    pub Name: String,
    pub Addr: String,
    pub Port: u16,
    pub Tags: HashMap<String, String>,
    pub pubStatus: usize,
    pub ProtocolMin: u8,
    pub ProtocolMax: u8,
    pub ProtocolCur: u8,
    pub DelegateMin: u8,
    pub DelegateMax: u8,
    pub DelegateCur: u8,
}

/// A service registered with the agent.
#[allow(non_snake_case)]
#[derive(Clone, Default, Eq, PartialEq, Debug)]
pub struct AgentService {
    pub ID: String,
    pub Service: String,
    pub Tags: Option<Vec<String>>,
    pub Port: u16,
    pub Address: String,
    pub EnableTagOverride: bool,
    pub CreateIndex: u64,
    pub ModifyIndex: u64,
}

/// `wan` as the flag `value`, or nothing.
pub open spec fn wan_param(wan: bool, value: Seq<char>) -> Pairs {
    if wan {
        seq![("wan"@, value)]
    } else {
        seq![]
    }
}

pub open spec fn maintenance_params(enable: bool, reason: Option<&str>) -> Pairs {
    seq![("enabled"@, if enable { "true"@ } else { "false"@ })] + match reason {
        Some(r) => seq![("reason"@, r@)],
        None => seq![],
    }
}

/// Requests to the local agent.
pub trait Agent {
    /// The settings the requests start from.
    spec fn agent_config(&self) -> Config;

    /// Lists the checks registered with the agent.
    fn checks(&self) -> (r: Request)
        ensures
            is_read_request(r, "/v1/agent/checks"@, self.agent_config(), seq![], None),
    ;

    /// Lists the members the agent sees, of the WAN pool when `wan`.
    fn members(&self, wan: bool) -> (r: Request)
        ensures
            is_read_request(
                r,
                "/v1/agent/members"@,
                self.agent_config(),
                wan_param(wan, "1"@),
                None,
            ),
    ;

    /// Reloads the agent's configuration.
    fn reload(&self) -> (r: Request)
        ensures
            is_write_request(r, "/v1/agent/reload"@, None, self.agent_config(), seq![], None),
    ;

    /// Puts the agent into maintenance mode or takes it out, with an optional reason.
    fn maintenance_mode(&self, enable: bool, reason: Option<&str>) -> (r: Request)
        ensures
            is_write_request(
                r,
                "/v1/agent/maintenance"@,
                None,
                self.agent_config(),
                maintenance_params(enable, reason),
                None,
            ),
    ;

    /// Asks the agent to join the cluster member at `address`.
    fn join(&self, address: &str, wan: bool) -> (r: Request)
        ensures
            is_write_request(
                r,
                "/v1/agent/join/"@ + address@,
                None,
                self.agent_config(),
                wan_param(wan, "true"@),
                None,
            ),
    ;

    /// Makes the agent leave the cluster gracefully and shut down.
    fn leave(&self) -> (r: Request)
        ensures
            is_write_request(r, "/v1/agent/leave"@, None, self.agent_config(), seq![], None),
    ;

    /// Forces a failed member into the left state.
    fn force_leave(&self) -> (r: Request)
        ensures
            is_write_request(
                r,
                "/v1/agent/force-leave"@,
                None,
                self.agent_config(),
                seq![],
                None,
            ),
    ;
}

fn wan_params(wan: bool, value: &str) -> (r: Vec<(String, String)>)
    ensures
        pairs_view(r@) == wan_param(wan, value@),
{
    let mut r: Vec<(String, String)> = Vec::new();
    if wan {
        r.push((String::from_str("wan"), String::from_str(value)));
    }
    assert(pairs_view(r@) =~= wan_param(wan, value@));
    r
}

impl Agent for Client {
    open spec fn agent_config(&self) -> Config {
        self.config
    }

    fn checks(&self) -> (r: Request) {
        plain_read_request("/v1/agent/checks", &self.config, &no_params())
    }

    fn members(&self, wan: bool) -> (r: Request) {
        plain_read_request("/v1/agent/members", &self.config, &wan_params(wan, "1"))
    }

    fn reload(&self) -> (r: Request) {
        write_request("/v1/agent/reload", None, &self.config, &no_params(), None)
    }

    fn maintenance_mode(&self, enable: bool, reason: Option<&str>) -> (r: Request) {
        let mut params: Vec<(String, String)> = Vec::new();
        let flag = if enable {
            String::from_str("true")
        } else {
            String::from_str("false")
        };
        params.push((String::from_str("enabled"), flag));
        if let Some(why) = reason {
            params.push((String::from_str("reason"), String::from_str(why)));
        }
        assert(pairs_view(params@) =~= maintenance_params(enable, reason));
        write_request("/v1/agent/maintenance", None, &self.config, &params, None)
    }

    fn join(&self, address: &str, wan: bool) -> (r: Request) {
        let mut path = String::from_str("/v1/agent/join/");
        path.append(address);
        write_request(path.as_str(), None, &self.config, &wan_params(wan, "true"), None)
    }

    fn leave(&self) -> (r: Request) {
        write_request("/v1/agent/leave", None, &self.config, &no_params(), None)
    }

    fn force_leave(&self) -> (r: Request) {
        write_request("/v1/agent/force-leave", None, &self.config, &no_params(), None)
    }
}

} // verus!
