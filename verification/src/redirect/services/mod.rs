//! The services of the redirect program.

pub mod redirect_service;
