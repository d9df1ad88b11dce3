//! What describes the storage of bindings.

pub mod url_indexes;
