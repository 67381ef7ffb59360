//! A client library for a document-store service reached over pooled
//! connections: requests are built here, response frames are decoded and
//! dispatched to a per-call handler, and each call resolves to one result.
pub mod buckets;
pub mod dispatch;
pub mod error;
pub mod json;
pub mod objects;
pub mod pool;
pub mod request;
