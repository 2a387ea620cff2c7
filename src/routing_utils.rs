//! How the failures of a request are answered: an HTTP status and a
//! [`BasicError`] body.
use vstd::prelude::*;
use vstd::string::{to_string_from_display_ensures, StringExecFns};

use crate::dto::{BasicError, ExtraInfo, ValidationErrors};

verus! {

/// `400 Bad Request`.
pub const BAD_REQUEST: u16 = 400;

/// `404 Not Found`.
pub const NOT_FOUND: u16 = 404;

/// `409 Conflict`.
pub const CONFLICT: u16 = 409;

/// `500 Internal Server Error`.
pub const INTERNAL_SERVER_ERROR: u16 = 500;

/// An unexpected failure, answered with a generic `500`.
pub struct GenericErrorResponse(pub anyhow::Error);

impl GenericErrorResponse {
    /// Answers `500` with the code `internal_error`, and a description that
    /// ends with the error's message.
    pub fn into_parts(self) -> (r: (u16, BasicError))
        ensures
            r.0 == INTERNAL_SERVER_ERROR,
            r.1.error_code@ == "internal_error"@,
            r.1.extra_info is None,
            exists|text: String|
                {
                    &&& to_string_from_display_ensures::<anyhow::Error>(&self.0, text)
                    &&& r.1.error_description@ == "An unexpected error occurred: "@ + text@
                },
    {
        let text = self.0.to_string();
        let description = "An unexpected error occurred: ".to_owned().concat(text.as_str());
        (
            INTERNAL_SERVER_ERROR,
            BasicError {
                error_code: "internal_error".to_owned(),
                error_description: description,
                extra_info: None,
            },
        )
    }
}

/// A request body that broke its validation rules.
pub struct ValidationErrorResponse(pub ValidationErrors);

impl From<ValidationErrors> for ValidationErrorResponse {
    fn from(value: ValidationErrors) -> (r: Self)
        ensures
            r.0 == value,
    {
        ValidationErrorResponse(value)
    }
}

impl vstd::std_specs::convert::FromSpecImpl<ValidationErrors> for ValidationErrorResponse {
    open spec fn obeys_from_spec() -> bool {
        true
    }

    open spec fn from_spec(v: ValidationErrors) -> Self {
        ValidationErrorResponse(v)
    }
}

impl ValidationErrorResponse {
    /// Answers `400` with the code `invalid_input`, and the failed rules.
    pub fn into_parts(self) -> (r: (u16, BasicError))
        ensures
            r.0 == BAD_REQUEST,
            r.1.error_code@ == "invalid_input"@,
            r.1.error_description@ == "Submitted data was invalid."@,
            r.1.extra_info == Some(ExtraInfo::ValidationIssues(self.0)),
    {
        (
            BAD_REQUEST,
            BasicError {
                error_code: "invalid_input".to_owned(),
                error_description: "Submitted data was invalid.".to_owned(),
                extra_info: Some(ExtraInfo::ValidationIssues(self.0)),
            },
        )
    }
}

/// A request body that could not be parsed as JSON.
pub struct JsonErrorResponse {
    /// Why parsing failed.
    pub parse_problem: String,
}

impl JsonErrorResponse {
    /// Answers `400` with the code `invalid_json`, and the parse problem.
    pub fn into_parts(self) -> (r: (u16, BasicError))
        ensures
            r.0 == BAD_REQUEST,
            r.1.error_code@ == "invalid_json"@,
            r.1.error_description@
                == "The passed request body contained malformed or unreadable JSON."@,
            r.1.extra_info == Some(ExtraInfo::Message(self.parse_problem)),
    {
        (
            BAD_REQUEST,
            BasicError {
                error_code: "invalid_json".to_owned(),
                error_description: "The passed request body contained malformed or unreadable JSON.".to_owned(),
                extra_info: Some(ExtraInfo::Message(self.parse_problem)),
            },
        )
    }
}

} // verus!
