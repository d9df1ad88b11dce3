//! What reaches the redirect service from outside.

pub mod rest;
