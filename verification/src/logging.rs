//! Structured log events. Each helper renders the exact message the service
//! logs for one occurrence, together with its severity; handing the events to
//! a sink is the caller's concern, so that this rendering stays pure.

use vstd::prelude::*;

use crate::text::dec_str;
use crate::text::u64_to_dec;

verus! {

/// Severity of one log event.
#[derive(Debug, Clone, Copy, PartialEq, Eq, Structural)]
pub enum LogSeverity {
    Error,
    Warn,
    Info,
    Debug,
}

/// Mathematical model of a [`LogEvent`].
pub struct LogEventV {
    pub severity: LogSeverity,
    pub text: Seq<char>,
}

/// One log event: a severity and the formatted message.
#[derive(Debug, Clone)]
pub struct LogEvent {
    /// How severe the event is.
    pub severity: LogSeverity,
    /// The formatted message.
    pub text: String,
}

impl View for LogEvent {
    type V = LogEventV;

    open spec fn view(&self) -> LogEventV {
        LogEventV { severity: self.severity, text: self.text@ }
    }
}

/// The events that report application startup.
pub fn startup_info(port: u16) -> (r: Vec<LogEvent>)
    ensures
        r@.len() == 4,
        r@[0]@ == (LogEventV {
            severity: LogSeverity::Info,
            text: "Starting La Liga de los Muertos backend"@,
        }),
        r@[1]@ == (LogEventV {
            severity: LogSeverity::Info,
            text: "Server will bind to 0.0.0.0:"@ + dec_str(port as nat),
        }),
        r@[2]@ == (LogEventV {
            severity: LogSeverity::Info,
            text: "API documentation: https://la-liga-de-los-muertos.apidog.io"@,
        }),
        r@[3]@ == (LogEventV { severity: LogSeverity::Debug, text: "Debug logging enabled"@ }),
{
    let mut bind = "Server will bind to 0.0.0.0:".to_owned();
    bind.append(u64_to_dec(port as u64).as_str());
    let mut events: Vec<LogEvent> = Vec::new();
    events.push(
        LogEvent {
            severity: LogSeverity::Info,
            text: "Starting La Liga de los Muertos backend".to_owned(),
        },
    );
    events.push(LogEvent { severity: LogSeverity::Info, text: bind });
    events.push(
        LogEvent {
            severity: LogSeverity::Info,
            text: "API documentation: https://la-liga-de-los-muertos.apidog.io".to_owned(),
        },
    );
    events.push(LogEvent { severity: LogSeverity::Debug, text: "Debug logging enabled".to_owned() });
    events
}

/// The events that report an established data-store connection.
pub fn database_info(url: &str, namespace: &str, database: &str) -> (r: Vec<LogEvent>)
    ensures
        r@.len() == 2,
        r@[0]@ == (LogEventV {
            severity: LogSeverity::Info,
            text: "Connected to SurrealDB at "@ + url@,
        }),
        r@[1]@ == (LogEventV {
            severity: LogSeverity::Info,
            text: "Using namespace: "@ + namespace@ + " / database: "@ + database@,
        }),
{
    let mut connected = "Connected to SurrealDB at ".to_owned();
    connected.append(url);
    let mut using = "Using namespace: ".to_owned();
    using.append(namespace);
    using.append(" / database: ");
    using.append(database);
    let mut events: Vec<LogEvent> = Vec::new();
    events.push(LogEvent { severity: LogSeverity::Info, text: connected });
    events.push(LogEvent { severity: LogSeverity::Info, text: using });
    events
}

/// The event that reports the start of schema initialization.
pub fn schema_init() -> (r: LogEvent)
    ensures
        r@ == (LogEventV {
            severity: LogSeverity::Info,
            text: "Initializing database schema..."@,
        }),
{
    LogEvent { severity: LogSeverity::Info, text: "Initializing database schema...".to_owned() }
}

/// The event that reports successful schema initialization.
pub fn schema_success() -> (r: LogEvent)
    ensures
        r@ == (LogEventV {
            severity: LogSeverity::Info,
            text: "Database schema initialized successfully"@,
        }),
{
    LogEvent {
        severity: LogSeverity::Info,
        text: "Database schema initialized successfully".to_owned(),
    }
}

/// The events that report a failed data-store connection.
pub fn database_error(error: &str) -> (r: Vec<LogEvent>)
    ensures
        r@.len() == 3,
        r@[0]@ == (LogEventV {
            severity: LogSeverity::Error,
            text: "Failed to initialize database connection: "@ + error@,
        }),
        r@[1]@ == (LogEventV {
            severity: LogSeverity::Error,
            text: "Please check your database configuration and try again."@,
        }),
        r@[2]@ == (LogEventV {
            severity: LogSeverity::Error,
            text: "Ensure SurrealDB is running and accessible at the configured URL"@,
        }),
{
    let mut failed = "Failed to initialize database connection: ".to_owned();
    failed.append(error);
    let mut events: Vec<LogEvent> = Vec::new();
    events.push(LogEvent { severity: LogSeverity::Error, text: failed });
    events.push(
        LogEvent {
            severity: LogSeverity::Error,
            text: "Please check your database configuration and try again.".to_owned(),
        },
    );
    events.push(
        LogEvent {
            severity: LogSeverity::Error,
            text: "Ensure SurrealDB is running and accessible at the configured URL".to_owned(),
        },
    );
    events
}

/// The events that report a ready server.
pub fn server_ready(port: u16) -> (r: Vec<LogEvent>)
    ensures
        r@.len() == 2,
        r@[0]@ == (LogEventV {
            severity: LogSeverity::Info,
            text: "Server ready and listening on port "@ + dec_str(port as nat),
        }),
        r@[1]@ == (LogEventV {
            severity: LogSeverity::Info,
            text: "Health check available at: http://localhost:"@ + dec_str(port as nat)
                + "/v1/health"@,
        }),
{
    let mut ready = "Server ready and listening on port ".to_owned();
    ready.append(u64_to_dec(port as u64).as_str());
    let mut health = "Health check available at: http://localhost:".to_owned();
    health.append(u64_to_dec(port as u64).as_str());
    health.append("/v1/health");
    let mut events: Vec<LogEvent> = Vec::new();
    events.push(LogEvent { severity: LogSeverity::Info, text: ready });
    events.push(LogEvent { severity: LogSeverity::Info, text: health });
    events
}

/// The event that reports a graceful shutdown.
pub fn shutdown() -> (r: LogEvent)
    ensures
        r@ == (LogEventV {
            severity: LogSeverity::Info,
            text: "Gracefully shutting down La Liga de los Muertos backend"@,
        }),
{
    LogEvent {
        severity: LogSeverity::Info,
        text: "Gracefully shutting down La Liga de los Muertos backend".to_owned(),
    }
}

/// The event that traces one request.
pub fn request_debug(method: &str, path: &str, user_agent: Option<&str>) -> (r: LogEvent)
    ensures
        r@.severity == LogSeverity::Debug,
        match user_agent {
            Some(ua) => r@.text == method@ + " "@ + path@ + " - User-Agent: "@ + ua@,
            None => r@.text == method@ + " "@ + path@,
        },
{
    let mut text = method.to_owned();
    text.append(" ");
    text.append(path);
    match user_agent {
        Some(ua) => {
            text.append(" - User-Agent: ");
            text.append(ua);
        },
        None => {},
    }
    LogEvent { severity: LogSeverity::Debug, text }
}

/// The event that records how long an operation took: slow operations are
/// surfaced at warning severity, the rest at debug severity.
pub fn performance_metric(operation: &str, duration_ms: u64) -> (r: LogEvent)
    ensures
        duration_ms > 1000 ==> r@ == (LogEventV {
            severity: LogSeverity::Warn,
            text: "Slow operation: "@ + operation@ + " took "@ + dec_str(duration_ms as nat)
                + "ms"@,
        }),
        duration_ms <= 1000 ==> r@ == (LogEventV {
            severity: LogSeverity::Debug,
            text: operation@ + ": "@ + dec_str(duration_ms as nat) + "ms"@,
        }),
{
    if duration_ms > 1000 {
        let mut text = "Slow operation: ".to_owned();
        text.append(operation);
        text.append(" took ");
        text.append(u64_to_dec(duration_ms).as_str());
        text.append("ms");
        LogEvent { severity: LogSeverity::Warn, text }
    } else {
        let mut text = operation.to_owned();
        text.append(": ");
        text.append(u64_to_dec(duration_ms).as_str());
        text.append("ms");
        LogEvent { severity: LogSeverity::Debug, text }
    }
}

/// The event that records an authentication action.
pub fn auth_event(event: &str, user_id: Option<&str>) -> (r: LogEvent)
    ensures
        r@.severity == LogSeverity::Info,
        match user_id {
            Some(id) => r@.text == "Auth event: "@ + event@ + " for user "@ + id@,
            None => r@.text == "Auth event: "@ + event@,
        },
{
    let mut text = "Auth event: ".to_owned();
    text.append(event);
    match user_id {
        Some(id) => {
            text.append(" for user ");
            text.append(id);
        },
        None => {},
    }
    LogEvent { severity: LogSeverity::Info, text }
}

/// The event that records a tournament action.
pub fn tournament_event(event: &str, tournament_id: &str, user_id: Option<&str>) -> (r: LogEvent)
    ensures
        r@.severity == LogSeverity::Info,
        match user_id {
            Some(id) => r@.text == "Tournament event: "@ + event@ + " for tournament "@
                + tournament_id@ + " by user "@ + id@,
            None => r@.text == "Tournament event: "@ + event@ + " for tournament "@
                + tournament_id@,
        },
{
    let mut text = "Tournament event: ".to_owned();
    text.append(event);
    text.append(" for tournament ");
    text.append(tournament_id);
    match user_id {
        Some(id) => {
            text.append(" by user ");
            text.append(id);
        },
        None => {},
    }
    LogEvent { severity: LogSeverity::Info, text }
}

} // verus!
