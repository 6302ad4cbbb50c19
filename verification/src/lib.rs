//! The logic of a small blog service: how a listing is paged, which
//! verb and path reach which operation, and how the outcome of each
//! operation on posts and tags becomes a reply.
//!
//! Nothing here talks to a database or a socket. A server hands the
//! rows or the failure it got to these functions and sends what they
//! return.

pub mod controller;
pub mod db;
pub mod domain;
pub mod driver;
pub mod reply;
pub mod routes;
pub mod text;
pub mod usecase;
