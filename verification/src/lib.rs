//! Request-handling core of a small marketplace service.
//!
//! The crate models the full pipeline from a matched HTTP request to the
//! uniform JSON response envelope: the domain entities, the shared data
//! store, one handler per domain operation, the route layer that binds
//! method and path to a handler, enforces body-size limits and translates
//! transport rejections into the same envelope shape, and the verified
//! rendering of the envelope to its JSON wire bytes. The laws module
//! states the pipeline's behavioral guarantees over the functional model
//! that [`routes::serve`] is proved to implement.

pub mod entities;
pub mod envelope;
pub mod handlers;
pub mod json;
pub mod laws;
pub mod routes;
pub mod store;
