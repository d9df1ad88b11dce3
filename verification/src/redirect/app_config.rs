//! What the redirect program is configured with.

use crate::outbound::mongodb::MongoConfig;
use crate::outbound::redis::RedisConfig;
use crate::text::{decimal, push_decimal};
use vstd::prelude::*;

verus! {

/// Where the program listens.
#[derive(Debug, Clone, PartialEq)]
pub struct AppInfo {
    pub host: String,
    pub port: u16,
}

/// The configuration of the redirect program.
#[derive(Debug, Clone, PartialEq)]
pub struct AppConfig {
    pub app: AppInfo,
    pub mongodb: MongoConfig,
    pub redis: RedisConfig,
}

impl AppInfo {
    /// The address to listen on: `{host}:{port}`.
    pub open spec fn spec_address(&self) -> Seq<char> {
        self.host@ + ":"@ + decimal(self.port as nat)
    }

    /// The address to listen on.
    pub fn address(&self) -> (r: String)
        ensures
            r@ == self.spec_address(),
    {
        let mut out = String::new();
        out.append(self.host.as_str());
        out.append(":");
        push_decimal(&mut out, self.port as u64);
        assert(out@ =~= self.spec_address());
        out
    }
}

} // verus!
