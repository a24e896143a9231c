//! A minimal multi-tenant object storage service: principals own buckets,
//! buckets contain files, file bytes are persisted through a storage engine
//! and indexed as relational metadata.  The decision logic of the service is
//! verified here; the surrounding HTTP and database plumbing hands this
//! library plain values and performs the effects it asks for.

pub mod config;
pub mod errors;
pub mod ids;
pub mod keys;
pub mod model;
pub mod resolver;
pub mod routes;
pub mod store;
pub mod token;
pub mod upload;
