//! Application configuration settings. The library consumes only
//! the environment file path and the namespace prefix; loading and
//! deserialising the configuration file is the host application's
//! business.

use vstd::prelude::*;

verus! {

/// The application settings block of the configuration.
#[derive(Debug, Clone, PartialEq, Eq)]
pub struct AppSettings {
    /// The name of the environment the application runs in.
    pub env: String,
    /// The namespace prefix of the application's variables; it is
    /// expected to end in the desired separator, e.g. `APP_`.
    pub prefix: String,
    /// The path of the environment file to load.
    pub env_file_path: String,
}

/// The application configuration.
#[derive(Debug, Clone, PartialEq, Eq)]
pub struct AppConfig {
    pub app: AppSettings,
}

} // verus!
