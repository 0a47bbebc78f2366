//! The rules of a small social service that keeps its users, profiles and
//! posts in a hosted backend: what a request is checked for before the backend
//! is asked, what is asked of the backend, and what its answers mean.
//!
//! Nothing here talks to the network or the file system, or reads the
//! environment. Requests to the backend are built as data and its answers are
//! taken as data; the caller sends and receives. The one thing read from
//! outside is the clock, for today's date.

pub mod auth_handlers;
pub mod auth_service;
pub mod config;
pub mod dates;
pub mod dtos;
pub mod email;
pub mod encoding;
pub mod http;
pub mod ids;
pub mod json;
pub mod models;
pub mod personal;
pub mod picture_handlers;
pub mod post_handlers;
pub mod posts;
pub mod profile_handlers;
pub mod profile_repo;
pub mod reply;
pub mod text;
pub mod token;
