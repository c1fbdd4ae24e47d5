use vstd::prelude::*;

use crate::address::parsed_url;
use crate::api_call::{nodes_error, APICall, ConfigError};

verus! {

/// User name and optional password.
pub type BasicAuth = (String, Option<String>);

/// An API key, sent with an optional prefix.
pub struct ApiKey {
    pub prefix: Option<String>,
    pub key: String,
}

/// Settings of a client: where requests go, how they authenticate, and the
/// node registry with its retry configuration.
pub struct Configuration {
    pub base_path: String,
    pub user_agent: Option<String>,
    pub client: APICall,
    pub basic_auth: Option<BasicAuth>,
    pub oauth_access_token: Option<String>,
    pub bearer_access_token: Option<String>,
    pub api_key: Option<ApiKey>,
}

/// The user agent that a configuration starts with.
pub open spec fn default_user_agent() -> Seq<char> {
    "OpenAPI-Generator/27.0/rust"@
}

impl Configuration {
    /// The settings that `new` and `build` leave at their defaults.
    pub open spec fn has_default_extras(&self) -> bool {
        &&& self.user_agent is Some
        &&& self.user_agent->Some_0@ == default_user_agent()
        &&& self.basic_auth is None
        &&& self.oauth_access_token is None
        &&& self.bearer_access_token is None
    }

    /// A configuration for the cluster at `nodes`, authenticated by
    /// `api_key`, with the first node as base path. An empty node list or an
    /// entry that is not an absolute URL is a configuration error.
    pub fn new(api_key: &str, nodes: Vec<&str>, now: u128) -> (r: Result<Configuration, ConfigError>)
        requires
            // a Vec of references never holds more than isize::MAX items
            nodes@.len() <= isize::MAX,
        ensures
            r is Err <==> nodes_error(nodes@) is Some,
            r is Err ==> r->Err_0 == nodes_error(nodes@)->Some_0,
            r is Ok ==> {
                let c = r->Ok_0;
                &&& c.base_path@ == nodes@[0]@
                &&& c.api_key is Some
                &&& c.api_key->Some_0.prefix is None
                &&& c.api_key->Some_0.key@ == api_key@
                &&& c.client.fresh_over(nodes@, now)
                &&& c.has_default_extras()
            },
    {
        if nodes.len() == 0 {
            return Err(ConfigError::EmptyNodes);
        }
        let base_path = nodes[0].to_owned();
        let client = match APICall::new(nodes, now) {
            Ok(client) => client,
            Err(e) => {
                return Err(e);
            },
        };
        Ok(
            Configuration {
                base_path,
                user_agent: Some("OpenAPI-Generator/27.0/rust".to_owned()),
                client,
                basic_auth: None,
                oauth_access_token: None,
                bearer_access_token: None,
                api_key: Some(ApiKey { prefix: None, key: api_key.to_owned() }),
            },
        )
    }

    /// Sets the health-check interval, in milliseconds.
    pub fn health_check_interval(self, interval: u128) -> (r: Configuration)
        ensures
            r.client.health_check_interval == interval,
            r.client.same_registry(&self.client),
            r.client.num_retries == self.client.num_retries,
            r.client.retry_interval == self.client.retry_interval,
            r.base_path == self.base_path,
            r.api_key == self.api_key,
            r.user_agent == self.user_agent,
    {
        let mut c = self;
        c.client.health_check_interval(interval);
        c
    }

    /// Sets the delay between attempts, in milliseconds.
    pub fn retry_interval(self, interval: u64) -> (r: Configuration)
        ensures
            r.client.retry_interval == interval,
            r.client.same_registry(&self.client),
            r.client.num_retries == self.client.num_retries,
            r.client.health_check_interval == self.client.health_check_interval,
            r.base_path == self.base_path,
            r.api_key == self.api_key,
            r.user_agent == self.user_agent,
    {
        let mut c = self;
        c.client.retry_interval(interval);
        c
    }

    /// Sets how many attempts after the first a logical call may make.
    pub fn num_retries(self, num_retries: usize) -> (r: Configuration)
        ensures
            r.client.num_retries == num_retries,
            r.client.same_registry(&self.client),
            r.client.health_check_interval == self.client.health_check_interval,
            r.client.retry_interval == self.client.retry_interval,
            r.base_path == self.base_path,
            r.api_key == self.api_key,
            r.user_agent == self.user_agent,
    {
        let mut c = self;
        c.client.num_retries(num_retries);
        c
    }

    /// Sets the nearest node, healthy as of `now`; fails on a string that is
    /// not an absolute URL.
    pub fn nearest_node(self, nearest_node: &str, now: u128) -> (r: Result<
        Configuration,
        ConfigError,
    >)
        ensures
            r is Err <==> parsed_url(nearest_node@) is None,
            r is Err ==> r->Err_0 == ConfigError::InvalidNearestNode,
            r is Ok ==> {
                let c = r->Ok_0;
                let n = c.client.nearest_node->Some_0;
                &&& c.client.nearest_node is Some
                &&& Some(n.url@) == parsed_url(nearest_node@)
                &&& n.is_healthy
                &&& n.last_access_timestamp == now
                &&& c.client.nodes@ == self.client.nodes@
                &&& c.client.cursor() == self.client.cursor()
                &&& c.client.same_settings(&self.client)
                &&& c.base_path == self.base_path
                &&& c.api_key == self.api_key
                &&& c.user_agent == self.user_agent
            },
    {
        let mut c = self;
        match c.client.nearest_node(nearest_node, now) {
            Ok(()) => Ok(c),
            Err(e) => Err(e),
        }
    }

    /// The finished configuration: base path, API key and node registry are
    /// kept, the other settings return to their defaults.
    pub fn build(self) -> (r: Configuration)
        ensures
            r.base_path == self.base_path,
            r.api_key == self.api_key,
            r.client == self.client,
            r.has_default_extras(),
    {
        Configuration {
            base_path: self.base_path,
            user_agent: Some("OpenAPI-Generator/27.0/rust".to_owned()),
            client: self.client,
            basic_auth: None,
            oauth_access_token: None,
            bearer_access_token: None,
            api_key: self.api_key,
        }
    }
}

} // verus!
