//! The coordination service that hands out sequence numbers.

use crate::shorten::outbound::zookeeper::id_generator::ZooKeeperIdGeneratorConfig;
use vstd::prelude::*;

pub mod id_generator;

verus! {

/// Where the coordination service listens, and the shard to allocate from.
#[derive(Debug, Clone, PartialEq)]
pub struct ZooKeeperConfig {
    pub host: String,
    pub port: u16,
    pub id_generator: ZooKeeperIdGeneratorConfig,
}

} // verus!
