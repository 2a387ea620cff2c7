//! The answers of the user and task endpoints to domain failures.
use vstd::prelude::*;
use vstd::string::to_string_from_display_ensures;

use crate::domain::todo::TaskError;
use crate::domain::user::CreateUserError;
use crate::dto::BasicError;
use crate::routing_utils::{GenericErrorResponse, CONFLICT, INTERNAL_SERVER_ERROR, NOT_FOUND};

verus! {

/// `parts` is the generic `500` answer to the unexpected failure `err`.
pub open spec fn is_generic_answer(err: anyhow::Error, parts: (u16, BasicError)) -> bool {
    &&& parts.0 == INTERNAL_SERVER_ERROR
    &&& parts.1.error_code@ == "internal_error"@
    &&& parts.1.extra_info is None
    &&& exists|text: String|
        {
            &&& to_string_from_display_ensures::<anyhow::Error>(&err, text)
            &&& parts.1.error_description@ == "An unexpected error occurred: "@ + text@
        }
}

/// `parts` is a `status` answer with `code` and `description`, and nothing more.
pub open spec fn is_answer(
    parts: (u16, BasicError),
    status: u16,
    code: Seq<char>,
    description: Seq<char>,
) -> bool {
    &&& parts.0 == status
    &&& parts.1.error_code@ == code
    &&& parts.1.error_description@ == description
    &&& parts.1.extra_info is None
}

/// Answers a failed task operation: a missing user is `404` with
/// `no_matching_user`; a port failure is the generic `500`.
pub fn handle_todo_task_err(err: TaskError) -> (r: (u16, BasicError))
    ensures
        err is UserDoesNotExist ==> is_answer(
            r,
            NOT_FOUND,
            "no_matching_user"@,
            "Could not find a user matching the given information."@,
        ),
        err matches TaskError::PortError(e) ==> is_generic_answer(e, r),
{
    match err {
        TaskError::UserDoesNotExist => (
            NOT_FOUND,
            BasicError {
                error_code: "no_matching_user".to_owned(),
                error_description: "Could not find a user matching the given information.".to_owned(),
                extra_info: None,
            },
        ),
        TaskError::PortError(e) => GenericErrorResponse(e).into_parts(),
    }
}

/// Answers a failed user creation: an existing user is `409` with
/// `user_exists`; a port failure is the generic `500`.
pub fn handle_create_user_err(err: CreateUserError) -> (r: (u16, BasicError))
    ensures
        err is UserAlreadyExists ==> is_answer(
            r,
            CONFLICT,
            "user_exists"@,
            "A user already exists in the system with the given information."@,
        ),
        err matches CreateUserError::PortError(e) ==> is_generic_answer(e, r),
{
    match err {
        CreateUserError::UserAlreadyExists => (
            CONFLICT,
            BasicError {
                error_code: "user_exists".to_owned(),
                error_description: "A user already exists in the system with the given information.".to_owned(),
                extra_info: None,
            },
        ),
        CreateUserError::PortError(e) => GenericErrorResponse(e).into_parts(),
    }
}

/// Answers a lookup of a task that the user does not have: `404` with
/// `no_matching_task`.
pub fn no_matching_task() -> (r: (u16, BasicError))
    ensures
        is_answer(r, NOT_FOUND, "no_matching_task"@, "The specified task does not exist."@),
{
    (
        NOT_FOUND,
        BasicError {
            error_code: "no_matching_task".to_owned(),
            error_description: "The specified task does not exist.".to_owned(),
            extra_info: None,
        },
    )
}

} // verus!
