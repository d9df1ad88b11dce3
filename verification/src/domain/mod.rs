//! The domain: the record of one binding, the indexes its storage keeps, and
//! the ways its storage can fail.

pub mod entities;
pub mod metadata;
pub mod repos;
