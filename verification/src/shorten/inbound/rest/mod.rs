//! The shorten service over HTTP.

pub mod error;
pub mod handlers;
