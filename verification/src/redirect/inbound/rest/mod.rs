//! The redirect service over HTTP.

pub mod error;
