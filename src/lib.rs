//! A small user registry: a stored `User` record, the `NewUser` payload it is
//! made from, a storage interface with an in-memory backend, and the service,
//! use cases and HTTP reply decisions layered over it.

pub mod user;
pub mod repository;
pub mod memory;
pub mod service;
pub mod use_cases;
pub mod handlers;
pub mod laws;
