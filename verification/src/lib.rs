//! A small users service: a verified model of a single `users` table,
//! the repository operations over it, and the HTTP result mapping.

pub mod models;
pub mod handlers;
pub mod repositories;
pub mod table;
