//! Profile and follow mutations of the signed-in user: validation rules,
//! the write units applied to durable storage, the events announced after a
//! write, and the per-request flow that ties them together.
pub mod ulid;
pub mod error;
pub mod event;
pub mod store;
pub mod validate;
pub mod flow;
pub mod mutation;
pub mod laws;
