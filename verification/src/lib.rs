//! A peer data-retrieval client abstraction for fetching block bodies from
//! remote peers: a download-client contract with priority scheduling and
//! range-hint routing, plus an adapter that turns a batch request into a
//! single-item request.

pub mod bodies;
pub mod download;
pub mod error;
pub mod fixed_client;
pub mod ident;
pub mod priority;
