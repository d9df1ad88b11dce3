//! What the shorten program is configured with.

use crate::outbound::mongodb::MongoConfig;
use crate::outbound::redis::RedisConfig;
use crate::shorten::outbound::zookeeper::ZooKeeperConfig;
use crate::text::{decimal, push_decimal};
use vstd::prelude::*;

verus! {

/// Why the program cannot be configured.
#[derive(Debug, Clone, Copy, PartialEq, Eq, Structural)]
pub enum AppConfigError {
    AppNotReady,
}

/// Where the program listens.
#[derive(Debug, Clone, PartialEq)]
pub struct AppInfo {
    pub host: String,
    pub port: u16,
}

/// The configuration of the shorten program.
#[derive(Debug, Clone, PartialEq)]
pub struct AppConfig {
    pub app: AppInfo,
    pub mongodb: MongoConfig,
    pub zookeeper: ZooKeeperConfig,
    pub redis: RedisConfig,
}

impl AppInfo {
    /// The address to listen on: `{host}:{port}`.
    pub open spec fn spec_address(&self) -> Seq<char> {
        self.host@ + ":"@ + decimal(self.port as nat)
    }

    /// The address to listen on.
    pub fn address(&self) -> (r: String)
        ensures
            r@ == self.spec_address(),
    {
        let mut out = String::new();
        out.append(self.host.as_str());
        out.append(":");
        push_decimal(&mut out, self.port as u64);
        assert(out@ =~= self.spec_address());
        out
    }
}

} // verus!
