//! Request handling for a read-only HTTP gateway over blockchain account
//! descriptors: environment-based RPC endpoint selection, request routing,
//! the decisions of the route handlers, and the serving of the interactive
//! documentation.
pub mod config;
pub mod handler;
pub mod reply;
pub mod router;
pub mod swagger;
pub mod text;
