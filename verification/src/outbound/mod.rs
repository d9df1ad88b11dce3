//! The backends that both services share: the document store and the cache.

pub mod mongodb;
pub mod redis;
