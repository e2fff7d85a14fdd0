//! Application-wide constants and configuration defaults.

use vstd::prelude::*;

verus! {

/// Default port for the HTTP server.
pub const DEFAULT_PORT: u16 = 4000;

/// Default database URL.
pub const DEFAULT_DB_URL: &'static str = "ws://localhost:8000";

/// Default namespace for the data store.
pub const DEFAULT_NAMESPACE: &'static str = "liga";

/// Default database name.
pub const DEFAULT_DATABASE: &'static str = "muertos";

/// Application name.
pub const APP_NAME: &'static str = "La Liga de los Muertos";

/// API version prefix.
pub const API_VERSION: &'static str = "v1";

/// Maximum request body size in bytes (1 MiB).
pub const MAX_REQUEST_SIZE: usize = 1048576;

/// Request timeout in seconds.
pub const REQUEST_TIMEOUT_SECONDS: u64 = 30;

/// Database connection timeout in seconds.
pub const DB_CONNECTION_TIMEOUT_SECONDS: u64 = 10;

/// Authentication token expiration time in hours.
pub const JWT_EXPIRATION_HOURS: i64 = 24;

} // verus!
