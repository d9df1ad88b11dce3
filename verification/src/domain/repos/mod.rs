//! What the durable store of bindings answers.

pub mod url_repo;
