//! The agent's configuration: the delivery client's identity and the
//! publisher's batching settings. Loading these from a file or the
//! environment happens outside; this type only carries them.

use vstd::prelude::*;

use crate::client::ClientConfig;
use crate::publish::PublisherConfig;

verus! {

/// Everything the agent needs to start: who to deliver as, and how to
/// batch.
#[derive(Clone, Debug)]
pub struct Config {
    client: ClientConfig,
    publisher: PublisherConfig,
}

impl Config {
    /// The delivery identity this configuration holds.
    pub closed spec fn spec_client(&self) -> ClientConfig {
        self.client
    }

    /// The batching settings this configuration holds.
    pub closed spec fn spec_publisher(&self) -> PublisherConfig {
        self.publisher
    }

    pub fn new(client: ClientConfig, publisher: PublisherConfig) -> (r: Config)
        ensures
            r.spec_client() == client,
            r.spec_publisher() == publisher,
    {
        Config { client, publisher }
    }

    pub fn into_parts(self) -> (r: (ClientConfig, PublisherConfig))
        ensures
            r.0 == self.spec_client(),
            r.1 == self.spec_publisher(),
    {
        (self.client, self.publisher)
    }
}

} // verus!
