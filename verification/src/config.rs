//! Configuration carried into the server: bind address and port, served
//! root, logging knobs.  Loading the values from a configuration file is
//! the surrounding application's job; the server core only needs these
//! plain values and can always be built from the defaults below.

use vstd::prelude::*;

verus! {

/// Top-level configuration.
#[derive(Debug)]
pub struct Config {
    pub server: ServerConfig,
    pub logging: LoggingConfig,
    pub extra: ExtraConfig,
}

/// Where to bind and what to serve.
#[derive(Debug)]
pub struct ServerConfig {
    pub address: String,
    pub port: String,
    pub root: String,
    pub threading: ServerThreadingConfig,
    pub async_: ServerAsyncConfig,
}

/// Thread-pool knobs; the sequential server leaves them disabled.
#[derive(Debug)]
pub struct ServerThreadingConfig {
    pub enable: bool,
    pub max_threads: u32,
}

/// Task-pool knobs; the sequential server leaves them disabled.
#[derive(Debug)]
pub struct ServerAsyncConfig {
    pub enable: bool,
    pub max_tasks: u32,
}

/// Log levels and an optional log file.
#[derive(Debug)]
pub struct LoggingConfig {
    pub default_level: String,
    pub log_file_level: String,
    pub log_file: String,
}

/// Remaining switches.
#[derive(Debug)]
pub struct ExtraConfig {
    pub panic_if_not_impl: bool,
}

impl Default for Config {
    /// A servable fallback: localhost on port 8080, serving the current
    /// working directory, with plain info-level logging.
    fn default() -> (r: Self)
        ensures
            r.server.address@ == "127.0.0.1"@,
            r.server.port@ == "8080"@,
            r.server.root@ == "."@,
            !r.server.threading.enable,
            !r.server.async_.enable,
            r.logging.default_level@ == "info"@,
            !r.extra.panic_if_not_impl,
    {
        Config {
            server: ServerConfig {
                address: "127.0.0.1".to_owned(),
                port: "8080".to_owned(),
                root: ".".to_owned(),
                threading: ServerThreadingConfig { enable: false, max_threads: 1 },
                async_: ServerAsyncConfig { enable: false, max_tasks: 1 },
            },
            logging: LoggingConfig {
                default_level: "info".to_owned(),
                log_file_level: "info".to_owned(),
                log_file: "".to_owned(),
            },
            extra: ExtraConfig { panic_if_not_impl: false },
        }
    }
}

} // verus!
