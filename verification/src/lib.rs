//! A verified core for a small todo-record service: a record model, an
//! in-memory relational store with a unique-id invariant, a pooled storage
//! gateway with bounded checkout, the five CRUD handlers, and the uniform
//! mapping from operation outcomes to transport status codes.

pub mod api;
pub mod clock;
pub mod handlers;
pub mod ids;
pub mod models;
pub mod store;
