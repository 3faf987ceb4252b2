//! Service configuration: the settled values, their defaults, and the exact
//! reading of the textual settings the process is handed at startup.

use vstd::prelude::*;
use crate::digits::{parse_u64, spec_digits_value};

verus! {

/// Default listen port.
pub const DEFAULT_SERVER_PORT: u16 = 3000;

/// Default connection-pool capacity.
pub const DEFAULT_POOL_SIZE: u32 = 10;

/// Default request timeout in seconds.
pub const DEFAULT_TIMEOUT_SECS: u64 = 30;

/// The settled configuration of the service.
#[derive(Debug, PartialEq, Eq)]
pub struct AppConfig {
    pub database_url: String,
    pub status_endpoint: String,
    pub server_port: u16,
    pub connection_pool_size: u32,
    pub request_timeout_secs: u64,
}

/// A numeric setting that could not be read.
#[derive(Clone, Copy, Debug, PartialEq, Eq, Structural)]
pub enum ConfigError {
    InvalidServerPort,
    InvalidPoolSize,
    InvalidTimeout,
}

/// The number a setting's text denotes, when it is a non-empty digit string
/// whose value is at most `max`.
pub open spec fn spec_parse(s: Seq<char>, max: int) -> Option<int> {
    match spec_digits_value(s) {
        Some(v) => if s.len() > 0 && v <= max {
            Some(v)
        } else {
            None
        },
        None => None,
    }
}

/// Whether an optional textual setting reads as a number within `max`
/// (an absent setting falls back to its default and is always fine).
pub open spec fn setting_ok(s: Option<String>, max: int) -> bool {
    match s {
        None => true,
        Some(text) => spec_parse(text@, max) is Some,
    }
}

impl AppConfig {
    /// Settle the configuration from the optional textual settings the
    /// process environment supplies, applying the documented default for
    /// each absent one. The first unreadable numeric setting, in field
    /// order, decides the error.
    pub fn from_parts(
        database_url: Option<String>,
        status_endpoint: Option<String>,
        server_port: Option<String>,
        pool_size: Option<String>,
        timeout_secs: Option<String>,
    ) -> (r: Result<AppConfig, ConfigError>)
        ensures
            r is Ok <==> setting_ok(server_port, u16::MAX as int) && setting_ok(
                pool_size,
                u32::MAX as int,
            ) && setting_ok(timeout_secs, u64::MAX as int),
            !setting_ok(server_port, u16::MAX as int) ==> r == Err::<AppConfig, ConfigError>(
                ConfigError::InvalidServerPort,
            ),
            setting_ok(server_port, u16::MAX as int) && !setting_ok(pool_size, u32::MAX as int)
                ==> r == Err::<AppConfig, ConfigError>(ConfigError::InvalidPoolSize),
            setting_ok(server_port, u16::MAX as int) && setting_ok(pool_size, u32::MAX as int)
                && !setting_ok(timeout_secs, u64::MAX as int) ==> r == Err::<
                AppConfig,
                ConfigError,
            >(ConfigError::InvalidTimeout),
            r matches Ok(c) ==> {
                &&& c.database_url@ == (match database_url {
                    Some(u) => u@,
                    None => "sqlite:orders.db"@,
                })
                &&& c.status_endpoint@ == (match status_endpoint {
                    Some(u) => u@,
                    None => "https://mock.com/api/process/status"@,
                })
                &&& (match server_port {
                    Some(p) => spec_parse(p@, u16::MAX as int) == Some(c.server_port as int),
                    None => c.server_port == DEFAULT_SERVER_PORT,
                })
                &&& (match pool_size {
                    Some(p) => spec_parse(p@, u32::MAX as int) == Some(
                        c.connection_pool_size as int,
                    ),
                    None => c.connection_pool_size == DEFAULT_POOL_SIZE,
                })
                &&& (match timeout_secs {
                    Some(t) => spec_parse(t@, u64::MAX as int) == Some(
                        c.request_timeout_secs as int,
                    ),
                    None => c.request_timeout_secs == DEFAULT_TIMEOUT_SECS,
                })
            },
    {
        let server_port: u16 = match &server_port {
            Some(p) => {
                match parse_u64(p.as_str()) {
                    Some(v) => {
                        if v <= u16::MAX as u64 {
                            v as u16
                        } else {
                            return Err(ConfigError::InvalidServerPort);
                        }
                    },
                    None => {
                        return Err(ConfigError::InvalidServerPort);
                    },
                }
            },
            None => DEFAULT_SERVER_PORT,
        };
        let connection_pool_size: u32 = match &pool_size {
            Some(p) => {
                match parse_u64(p.as_str()) {
                    Some(v) => {
                        if v <= u32::MAX as u64 {
                            v as u32
                        } else {
                            return Err(ConfigError::InvalidPoolSize);
                        }
                    },
                    None => {
                        return Err(ConfigError::InvalidPoolSize);
                    },
                }
            },
            None => DEFAULT_POOL_SIZE,
        };
        let request_timeout_secs: u64 = match &timeout_secs {
            Some(t) => {
                match parse_u64(t.as_str()) {
                    Some(v) => v,
                    None => {
                        return Err(ConfigError::InvalidTimeout);
                    },
                }
            },
            None => DEFAULT_TIMEOUT_SECS,
        };
        let database_url: String = match database_url {
            Some(u) => u,
            None => "sqlite:orders.db".to_owned(),
        };
        let status_endpoint: String = match status_endpoint {
            Some(u) => u,
            None => "https://mock.com/api/process/status".to_owned(),
        };
        Ok(
            AppConfig {
                database_url,
                status_endpoint,
                server_port,
                connection_pool_size,
                request_timeout_secs,
            },
        )
    }
}

} // verus!
