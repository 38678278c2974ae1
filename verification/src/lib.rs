//! Pre-flight validation of a process environment against a declared
//! schema: each required variable must be present under a namespace
//! prefix and its value must satisfy the variable's declared type.

pub mod config;
pub mod constants;
pub mod env;
pub mod err;
pub mod parse;
pub mod snapshot;
pub mod text;
pub mod types;
pub mod validator;
