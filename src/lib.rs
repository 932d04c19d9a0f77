//! Control plane for ephemeral SQL databases: the dialect registry, the
//! parser of CLI output, the shaping of query responses, and the rules of
//! the instance lifecycle (creation, archive, restore, destruction, startup
//! reconciliation), each stated and proved.

pub mod dialect;
pub mod driver;
pub mod error;
pub mod laws;
pub mod lifecycle;
pub mod names;
pub mod openapi;
pub mod plan;
pub mod query;
pub mod record;
pub mod recovery;
pub mod response;
pub mod text;
