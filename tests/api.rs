use sample_rest::api::{handle_create_user_err, handle_todo_task_err, no_matching_task};
use sample_rest::domain::todo::TaskError;
use sample_rest::domain::user::CreateUserError;
use sample_rest::dto::user::NewUser;
use sample_rest::dto::ExtraInfo;
use sample_rest::routing_utils::{GenericErrorResponse, JsonErrorResponse, ValidationErrorResponse};

#[test]
fn converts_missing_user_to_not_found() {
    let (status, body) = handle_todo_task_err(TaskError::UserDoesNotExist);
    assert_eq!(status, 404);
    assert_eq!(body.error_code, "no_matching_user");
    assert!(body.extra_info.is_none());
}

#[test]
fn converts_port_error_to_500() {
    let (status, body) = handle_todo_task_err(TaskError::PortError(anyhow::Error::msg("Whoopsie daisy")));
    assert_eq!(status, 500);
    assert_eq!(body.error_code, "internal_error");
    assert_eq!(body.error_description, "An unexpected error occurred: Whoopsie daisy");
}

#[test]
fn responds_409_on_already_existing_user() {
    let (status, body) = handle_create_user_err(CreateUserError::UserAlreadyExists);
    assert_eq!(status, 409);
    assert_eq!(body.error_code, "user_exists");
}

#[test]
fn responds_500_on_port_error() {
    let (status, body) = handle_create_user_err(CreateUserError::PortError(anyhow::Error::msg("Whoopsie daisy")));
    assert_eq!(status, 500);
    assert_eq!(body.error_code, "internal_error");
}

#[test]
fn gives_appropriate_404_on_no_task() {
    let (status, body) = no_matching_task();
    assert_eq!(status, 404);
    assert_eq!(body.error_code, "no_matching_task");
}

#[test]
fn generic_error_names_the_cause() {
    let (status, body) = GenericErrorResponse(anyhow::Error::msg("Something went wrong!")).into_parts();
    assert_eq!(status, 500);
    assert_eq!(body.error_description, "An unexpected error occurred: Something went wrong!");
}

#[test]
fn returns_400_on_bad_input() {
    let errors = NewUser { first_name: "A".repeat(31), last_name: "Doe".to_owned() }
        .validate()
        .unwrap_err();
    let (status, body) = ValidationErrorResponse::from(errors).into_parts();
    assert_eq!(status, 400);
    assert_eq!(body.error_code, "invalid_input");
    match body.extra_info {
        Some(ExtraInfo::ValidationIssues(issues)) => {
            assert!(issues.field_errors().contains_key("first_name"))
        }
        other => panic!("expected validation issues, got {:?}", other),
    }
}

#[test]
fn malformed_json_is_400() {
    let (status, body) = JsonErrorResponse { parse_problem: "EOF while parsing".to_owned() }.into_parts();
    assert_eq!(status, 400);
    assert_eq!(body.error_code, "invalid_json");
    assert!(matches!(body.extra_info, Some(ExtraInfo::Message(m)) if m == "EOF while parsing"));
}
