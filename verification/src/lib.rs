//! The rules of a small todo service: the entity and its status, how a stored
//! row becomes an entity, and which HTTP reply each store outcome earns.

pub mod clock;
pub mod error;
pub mod handler;
pub mod ident;
pub mod model;
pub mod repository;
pub mod status;
