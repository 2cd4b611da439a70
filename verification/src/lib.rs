//! A reviews "subgraph" core: the domain data model, the query-resolution
//! logic that filters reviews by product or author, and a schema registry
//! that maps a configuration name to a schema definition so that an external
//! gateway can fetch this service's schema document and its extension
//! fragments.
//!
//! Transport (HTTP, request parsing, serialization) is deliberately outside
//! this crate: the resolver operations take plain values and return plain
//! values.

pub mod registry;
pub mod resolver;
pub mod review;
