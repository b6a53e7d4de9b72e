//! An in-process user store: a repository interface with a concrete,
//! concurrency-safe in-memory implementation.
//!
//! The store keeps an ordered collection of [`user::User`] records behind a
//! reader/writer lock whose invariant is id-uniqueness, and offers the four
//! repository operations (get, create, update, delete) with a closed error
//! taxonomy.

pub mod clock;
pub mod repository;
pub mod store;
pub mod user;
