//! What the shorten service asks of its backends.

pub mod zookeeper;
