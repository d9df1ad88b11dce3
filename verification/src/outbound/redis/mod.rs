//! The cache server: where it listens, and how its keys are named.

use crate::text::{decimal, push_decimal};
use std::collections::HashMap;
use vstd::prelude::*;

pub mod keys;

verus! {

/// Where the cache server listens, and the number of the database that each
/// program uses, by the program's name.
#[derive(Debug, Clone, PartialEq)]
pub struct RedisConfig {
    pub host: String,
    pub port: u16,
    pub dbs: HashMap<String, u8>,
}

impl RedisConfig {
    /// The address of the server: `redis://{host}:{port}`.
    pub open spec fn spec_url(&self) -> Seq<char> {
        "redis://"@ + self.host@ + ":"@ + decimal(self.port as nat)
    }

    /// The address of database `db` of the server: `redis://{host}:{port}/{db}`.
    pub open spec fn spec_db_url(&self, db: u8) -> Seq<char> {
        self.spec_url() + "/"@ + decimal(db as nat)
    }

    /// The address of the server.
    pub fn url(&self) -> (r: String)
        ensures
            r@ == self.spec_url(),
    {
        let mut out = String::new();
        out.append("redis://");
        out.append(self.host.as_str());
        out.append(":");
        push_decimal(&mut out, self.port as u64);
        assert(out@ =~= self.spec_url());
        out
    }

    /// The address of database `db` of the server.
    pub fn db_url(&self, db: u8) -> (r: String)
        ensures
            r@ == self.spec_db_url(db),
    {
        let mut out = self.url();
        out.append("/");
        push_decimal(&mut out, db as u64);
        out
    }
}

} // verus!
