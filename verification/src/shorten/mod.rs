//! The shorten service: from a long URL to a short code.

pub mod app_config;
pub mod inbound;
pub mod outbound;
pub mod services;
