//! Short-code issuing and resolution for long URLs: the domain record, the
//! sharded identifier allocator, and the decision procedures of the shorten
//! and redirect services, stated against mathematical models and proved.

mod clock;
pub mod domain;
pub mod model;
pub mod outbound;
pub mod redirect;
pub mod short_code;
pub mod shorten;
pub mod text;
