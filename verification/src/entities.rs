//! Plain data carried through the API: the generic response wrapper, the
//! request payloads for tournaments and users, and the health report.

use vstd::prelude::*;

verus! {

/// Standard response wrapper for API endpoints.
#[derive(Debug)]
pub struct ApiResponse<T> {
    pub success: bool,
    pub data: Option<T>,
    pub message: Option<String>,
    pub errors: Option<Vec<String>>,
}

impl<T> ApiResponse<T> {
    /// A successful response carrying `data`.
    pub fn success(data: T) -> (r: Self)
        ensures
            r.success == true,
            r.data == Some(data),
            r.message is None,
            r.errors is None,
    {
        Self { success: true, data: Some(data), message: None, errors: None }
    }

    /// A successful response carrying `data` and a message.
    pub fn success_with_message(data: T, message: String) -> (r: Self)
        ensures
            r.success == true,
            r.data == Some(data),
            r.message == Some(message),
            r.errors is None,
    {
        Self { success: true, data: Some(data), message: Some(message), errors: None }
    }

    /// A failed response carrying one message.
    pub fn error(message: String) -> (r: Self)
        ensures
            r.success == false,
            r.data is None,
            r.message == Some(message),
            r.errors is None,
    {
        Self { success: false, data: None, message: Some(message), errors: None }
    }

    /// A failed response carrying several messages.
    pub fn errors(errors: Vec<String>) -> (r: Self)
        ensures
            r.success == false,
            r.data is None,
            r.message is None,
            r.errors == Some(errors),
    {
        Self { success: false, data: None, message: None, errors: Some(errors) }
    }
}

/// Data for creating a new tournament.
#[derive(Debug, Clone)]
pub struct CreateTournamentData {
    pub name: String,
    pub description: String,
    pub published: Option<bool>,
}

/// Data for updating an existing tournament.
#[derive(Debug, Clone)]
pub struct UpdateTournamentData {
    pub name: Option<String>,
    pub description: Option<String>,
    pub published: Option<bool>,
}

/// Tournament lifecycle states.
#[derive(Debug, Clone, Copy, PartialEq, Eq, Structural)]
pub enum TournamentStatus {
    Draft,
    Published,
    InProgress,
    Completed,
    Cancelled,
}

impl Default for TournamentStatus {
    /// A new tournament starts as a draft.
    fn default() -> (r: Self)
        ensures
            r == TournamentStatus::Draft,
    {
        TournamentStatus::Draft
    }
}

/// Tournament formats.
#[derive(Debug, Clone, Copy, PartialEq, Eq, Structural)]
pub enum TournamentType {
    SingleElimination,
    DoubleElimination,
    RoundRobin,
    Swiss,
}

impl Default for TournamentType {
    /// Single elimination is the default format.
    fn default() -> (r: Self)
        ensures
            r == TournamentType::SingleElimination,
    {
        TournamentType::SingleElimination
    }
}

/// States of one participant within a tournament.
#[derive(Debug, Clone, Copy, PartialEq, Eq, Structural)]
pub enum ParticipantStatus {
    Registered,
    Active,
    Eliminated,
    Withdrawn,
    Disqualified,
}

impl Default for ParticipantStatus {
    /// A new participant starts as registered.
    fn default() -> (r: Self)
        ensures
            r == ParticipantStatus::Registered,
    {
        ParticipantStatus::Registered
    }
}

/// Data for creating a new user.
#[derive(Debug, Clone)]
pub struct CreateUserData {
    pub username: String,
    pub email: String,
}

/// Data for updating an existing user.
#[derive(Debug, Clone)]
pub struct UpdateUserData {
    pub username: Option<String>,
    pub email: Option<String>,
}

/// User authentication credentials.
#[derive(Debug, Clone)]
pub struct UserCredentials {
    pub username: String,
    pub password: String,
}

/// User registration data.
#[derive(Debug, Clone)]
pub struct UserRegistration {
    pub username: String,
    pub email: String,
    pub password: String,
}

/// The health report of the running service.
#[derive(Debug, Clone)]
pub struct HealthStatus {
    pub name: String,
    pub status: String,
    pub version: String,
    pub database: Option<String>,
}

impl HealthStatus {
    /// The report for the current service, given whether the data store
    /// answered a probe.
    pub fn current(db_connected: bool) -> (r: Self)
        ensures
            r.name@ == "La Liga de los Muertos"@,
            r.status@ == "OK"@,
            r.version@ == "v0.1.0"@,
            db_connected ==> (r.database matches Some(d) && d@ == "Connected"@),
            !db_connected ==> (r.database matches Some(d) && d@ == "Disconnected"@),
    {
        HealthStatus {
            name: "La Liga de los Muertos".to_owned(),
            status: "OK".to_owned(),
            version: "v0.1.0".to_owned(),
            database: Some(
                if db_connected {
                    "Connected".to_owned()
                } else {
                    "Disconnected".to_owned()
                },
            ),
        }
    }
}

} // verus!
