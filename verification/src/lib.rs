//! Resolution of the configuration root.
//!
//! A caller that has gathered its candidate locations (a command-line
//! override, the value of an environment variable) hands them to
//! [`resolver::resolve`], which picks the one to use by a fixed precedence.
//! Nothing here reads the environment or touches the file system.

pub mod blank;
pub mod config;
pub mod resolver;
