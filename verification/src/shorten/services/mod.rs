//! The services of the shorten program.

pub mod shorten_service;
