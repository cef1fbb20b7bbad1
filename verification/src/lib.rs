//! A small CRUD library for a single `User` resource.
//!
//! The crate holds the request-handling logic of a user service: the data
//! shapes exchanged with callers, an in-memory realization of the user
//! repository, the use-case layer, and the controller that validates
//! requests and maps failures to HTTP status codes. Transport, JSON
//! encoding and the database driver live outside this crate; handlers here
//! take and return plain values.

pub mod controller;
pub mod error;
pub mod fixture;
pub mod repo;
pub mod use_case;
pub mod user;
