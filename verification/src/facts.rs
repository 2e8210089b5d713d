//! The facts a client-side pool is built from: its configuration, and the
//! routing state of a failover pool made from it.
use vstd::prelude::*;
use crate::config::ClientConfig;
use crate::failover::FailoverState;

verus! {

/// What the client side is built from, defined by the user.
pub trait ClientFacts {
    /// The client configuration the facts keep.
    fn get_config(&self) -> &ClientConfig;

    /// The id of this client; 0 unless the facts assign one.
    fn get_client_id(&self) -> (r: u64)
        default_ensures
            r == 0,
    {
        0
    }
}

/// Client facts for general use: the client configuration.
pub struct ClientDefault {
    config: ClientConfig,
}

impl ClientDefault {
    /// Facts holding `config`.
    pub fn new(config: ClientConfig) -> (r: std::sync::Arc<ClientDefault>)
        ensures
            r.spec_config() == config,
    {
        std::sync::Arc::new(ClientDefault { config })
    }

    /// The configuration the facts hold.
    pub closed spec fn spec_config(&self) -> ClientConfig {
        self.config
    }

}

/// The facts of the remote API client: the client configuration.
pub struct APIFact {
    config: ClientConfig,
}

impl APIFact {
    /// Facts holding `config`.
    pub fn new(config: ClientConfig) -> (r: std::sync::Arc<APIFact>)
        ensures
            r.spec_config() == config,
    {
        std::sync::Arc::new(APIFact { config })
    }

    /// The configuration the facts hold.
    pub closed spec fn spec_config(&self) -> ClientConfig {
        self.config
    }


    /// The routing state of a failover pool over `addrs`, with the default
    /// channel size of its connection pools.
    pub fn new_failover(&self, addrs: Vec<String>, stateless: bool, retry_limit: usize) -> (r: FailoverState)
        ensures
            r.cluster.addrs@ == addrs@,
            r.cluster.ver == 0,
            r.stateless == stateless,
            r.ver == 1,
            r.next_node == 0,
            r.retry_limit == retry_limit,
            r.pool_channel_size == 0,
    {
        FailoverState::new(addrs, stateless, retry_limit, 0)
    }
}

impl ClientFacts for ClientDefault {
    fn get_config(&self) -> (r: &ClientConfig)
        ensures
            *r == self.spec_config(),
    {
        &self.config
    }
}

impl ClientFacts for APIFact {
    fn get_config(&self) -> (r: &ClientConfig)
        ensures
            *r == self.spec_config(),
    {
        &self.config
    }
}

} // verus!
