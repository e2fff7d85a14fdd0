use liga_muertos_back::logging::LogSeverity;
use liga_muertos_back::logging::auth_event;
use liga_muertos_back::logging::database_error;
use liga_muertos_back::logging::database_info;
use liga_muertos_back::logging::performance_metric;
use liga_muertos_back::logging::request_debug;
use liga_muertos_back::logging::schema_init;
use liga_muertos_back::logging::schema_success;
use liga_muertos_back::logging::server_ready;
use liga_muertos_back::logging::shutdown;
use liga_muertos_back::logging::startup_info;
use liga_muertos_back::logging::tournament_event;

#[test]
fn test_logging_functions_dont_panic() {
    let _ = startup_info(4000);
    let _ = database_info("ws://localhost:8000", "test", "test");
    let _ = schema_init();
    let _ = schema_success();
    let _ = database_error("Connection failed");
    let _ = server_ready(4000);
    let _ = shutdown();
    let _ = request_debug("GET", "/health", Some("test-agent"));
    let _ = request_debug("POST", "/api/test", None);
    let _ = performance_metric("database_query", 150);
    let _ = performance_metric("slow_operation", 1500);
    let _ = auth_event("login", Some("user123"));
    let _ = auth_event("logout", None);
    let _ = tournament_event("created", "tournament123", Some("user456"));
    let _ = tournament_event("started", "tournament123", None);
}

#[test]
fn test_performance_metric_severity() {
    let slow = performance_metric("slow_operation", 1500);
    assert!(matches!(slow.severity, LogSeverity::Warn));
    assert_eq!(slow.text, "Slow operation: slow_operation took 1500ms");

    let fast = performance_metric("database_query", 150);
    assert!(matches!(fast.severity, LogSeverity::Debug));
    assert_eq!(fast.text, "database_query: 150ms");

    let boundary = performance_metric("exactly_a_second", 1000);
    assert!(matches!(boundary.severity, LogSeverity::Debug));
}

#[test]
fn test_event_texts() {
    let with_user = auth_event("login", Some("user123"));
    assert!(matches!(with_user.severity, LogSeverity::Info));
    assert_eq!(with_user.text, "Auth event: login for user user123");

    let without_user = auth_event("logout", None);
    assert_eq!(without_user.text, "Auth event: logout");

    let tournament = tournament_event("created", "t1", Some("u2"));
    assert_eq!(tournament.text, "Tournament event: created for tournament t1 by user u2");

    let request = request_debug("GET", "/health", Some("agent"));
    assert!(matches!(request.severity, LogSeverity::Debug));
    assert_eq!(request.text, "GET /health - User-Agent: agent");
}

#[test]
fn test_startup_and_ready_events() {
    let startup = startup_info(4000);
    assert_eq!(startup.len(), 4);
    assert!(matches!(startup[0].severity, LogSeverity::Info));
    assert_eq!(startup[1].text, "Server will bind to 0.0.0.0:4000");
    assert!(matches!(startup[3].severity, LogSeverity::Debug));

    let ready = server_ready(4000);
    assert_eq!(ready.len(), 2);
    assert_eq!(ready[0].text, "Server ready and listening on port 4000");
    assert_eq!(
        ready[1].text,
        "Health check available at: http://localhost:4000/v1/health"
    );

    let failure = database_error("Connection failed");
    assert_eq!(failure.len(), 3);
    assert!(matches!(failure[0].severity, LogSeverity::Error));
    assert_eq!(
        failure[0].text,
        "Failed to initialize database connection: Connection failed"
    );
}
