//! What reaches the shorten service from outside.

pub mod rest;
