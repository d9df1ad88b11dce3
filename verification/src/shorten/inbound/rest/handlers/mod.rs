//! The requests that the shorten service takes.

pub mod shorten;
