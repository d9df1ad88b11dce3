//! The redirect service: from a short code or an alias to the long URL.

pub mod app_config;
pub mod inbound;
pub mod services;
