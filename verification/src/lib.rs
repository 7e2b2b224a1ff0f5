//! The client side of a full-text search engine's HTTP interface, without
//! the transport: what is sent is built here, and what comes back is read
//! here.

pub mod bulk;
pub mod distant_client;
pub mod errors;
pub mod highlight;
pub mod json;
pub mod query;
pub mod responses;
pub mod scroll;
pub mod text;
