use liga_muertos_back::AppState;
use liga_muertos_back::constants;
use liga_muertos_back::entities::ApiResponse;
use liga_muertos_back::entities::HealthStatus;
use liga_muertos_back::entities::ParticipantStatus;
use liga_muertos_back::entities::TournamentStatus;
use liga_muertos_back::entities::TournamentType;
use liga_muertos_back::entities::UpdateTournamentData;
use liga_muertos_back::entities::UpdateUserData;

#[test]
fn test_participant_status_default() {
    let status = ParticipantStatus::default();
    matches!(status, ParticipantStatus::Registered);
}

#[test]
fn test_tournament_status_default() {
    let status = TournamentStatus::default();
    matches!(status, TournamentStatus::Draft);
}

#[test]
fn test_tournament_type_default() {
    let tournament_type = TournamentType::default();
    matches!(tournament_type, TournamentType::SingleElimination);
}

#[test]
fn test_update_tournament_data_partial() {
    let data = UpdateTournamentData {
        name: Some("Updated Tournament".to_string()),
        description: None,
        published: Some(true),
    };

    assert!(data.name.is_some());
    assert!(data.description.is_none());
    assert!(data.published.is_some());
}

#[test]
fn test_update_user_data_partial() {
    let data = UpdateUserData {
        username: Some("updateduser".to_string()),
        email: None,
    };

    assert!(data.username.is_some());
    assert!(data.email.is_none());
}

#[test]
fn test_app_state_creation() {
    let _state = AppState::new();
    assert!(true);
}

#[test]
fn test_app_state_test_creation() {
    let _state = AppState::new_test();
    assert!(true);
}

#[test]
fn test_constants() {
    assert_eq!(constants::DEFAULT_PORT, 4000);
    assert_eq!(constants::APP_NAME, "La Liga de los Muertos");
    assert_eq!(constants::API_VERSION, "v1");
}

#[test]
fn test_health_status_creation() {
    let health = HealthStatus {
        name: "Test".to_string(),
        status: "OK".to_string(),
        version: "v1.0.0".to_string(),
        database: Some("Connected".to_string()),
    };

    assert_eq!(health.name, "Test");
    assert_eq!(health.status, "OK");
    assert_eq!(health.version, "v1.0.0");
    assert_eq!(health.database, Some("Connected".to_string()));
}

#[test]
fn test_health_current_report() {
    let up = HealthStatus::current(true);
    assert_eq!(up.name, "La Liga de los Muertos");
    assert_eq!(up.status, "OK");
    assert_eq!(up.database.as_deref(), Some("Connected"));

    let down = HealthStatus::current(false);
    assert_eq!(down.database.as_deref(), Some("Disconnected"));
}

#[test]
fn test_api_response_constructors() {
    let success: ApiResponse<u32> = ApiResponse::success(5);
    assert!(success.success);
    assert_eq!(success.data, Some(5));
    assert!(success.message.is_none());
    assert!(success.errors.is_none());

    let with_message: ApiResponse<u32> = ApiResponse::success_with_message(7, "done".to_string());
    assert!(with_message.success);
    assert_eq!(with_message.message.as_deref(), Some("done"));

    let error: ApiResponse<u32> = ApiResponse::error("failed".to_string());
    assert!(!error.success);
    assert!(error.data.is_none());
    assert_eq!(error.message.as_deref(), Some("failed"));

    let errors: ApiResponse<u32> = ApiResponse::errors(vec!["a".to_string(), "b".to_string()]);
    assert!(!errors.success);
    assert_eq!(errors.errors.as_ref().unwrap().len(), 2);
}
