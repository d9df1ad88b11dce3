//! The document store: where it listens and what it holds.

use crate::text::{decimal, push_decimal};
use std::collections::HashMap;
use vstd::prelude::*;

pub mod url_repo;

verus! {

/// Where the document store listens, who logs in, and the name of the
/// collection behind each repository.
#[derive(Debug, Clone, PartialEq)]
pub struct MongoConfig {
    pub host: String,
    pub port: u16,
    pub database: String,
    pub username: String,
    pub password: String,
    pub collections: HashMap<String, String>,
}

impl MongoConfig {
    /// The connection string:
    /// `mongodb://{username}:{password}@{host}:{port}/?authSource=admin`.
    pub open spec fn spec_uri(&self) -> Seq<char> {
        "mongodb://"@ + self.username@ + ":"@ + self.password@ + "@"@ + self.host@ + ":"@ + decimal(
            self.port as nat,
        ) + "/?authSource=admin"@
    }

    pub fn uri(&self) -> (r: String)
        ensures
            r@ == self.spec_uri(),
    {
        let mut out = String::new();
        out.append("mongodb://");
        out.append(self.username.as_str());
        out.append(":");
        out.append(self.password.as_str());
        out.append("@");
        out.append(self.host.as_str());
        out.append(":");
        push_decimal(&mut out, self.port as u64);
        out.append("/?authSource=admin");
        assert(out@ =~= self.spec_uri());
        out
    }
}

} // verus!
