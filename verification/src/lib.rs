//! A small verified library behind a command-line tool that fetches the
//! authenticated user's followers from a code-hosting service and prints one
//! identifying line per follower.
//!
//! The library holds everything that can be stated and proved: reading the
//! credential out of a configuration value, checking a response body against
//! the follower record shape, turning records into output lines, and the
//! error taxonomy with its messages and exit code. The thin binary around it
//! performs the environment read, the HTTP round trip and the printing.

pub mod fetch;
pub mod follower;
pub mod json;
pub mod pagination;
