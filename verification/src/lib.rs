//! A minimal request-handling core built around one decoupling pattern: a
//! domain entity executes its business logic against an abstract persistence
//! capability, never against a concrete store. The capability contract, a
//! reference in-memory store, the entity, and the response assembly are all
//! verified; the host-runtime plumbing that feeds them lives outside the
//! library.

pub mod persistence;
pub mod store;
pub mod domain;
pub mod handler;
