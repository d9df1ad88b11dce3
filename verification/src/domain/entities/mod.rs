//! Domain records.

pub mod url;
