//! The API's error kinds, their HTTP status and their JSON body.

use vstd::prelude::*;

verus! {

/// An error answered to an API client.
#[derive(Debug, PartialEq, Eq)]
pub enum ApiError {
    /// Server configuration could not be read.
    Env,
    /// The request was malformed; the text says how.
    InvalidInput(String),
    /// A body could not be deserialised; the text is the parser's message.
    Json(String),
    /// A call to the platform API failed.
    Api,
    /// The caller is not authenticated or not allowed; the text says why.
    Authentication(String),
    /// The analytics store failed; the text is its message.
    Clickhouse(String),
}

/// The error body: a machine-readable name and a description.
pub struct RawError<'a> {
    pub error: &'a str,
    pub description: &'a str,
}

/// The HTTP status of each error kind.
pub open spec fn status_of(e: ApiError) -> u16 {
    match e {
        ApiError::Env => 500,
        ApiError::InvalidInput(_) => 400,
        ApiError::Json(_) => 400,
        ApiError::Api => 424,
        ApiError::Authentication(_) => 401,
        ApiError::Clickhouse(_) => 500,
    }
}

/// The machine-readable name of each error kind.
pub open spec fn name_of(e: ApiError) -> Seq<char> {
    match e {
        ApiError::Env => "environment_error"@,
        ApiError::InvalidInput(_) => "invalid_input"@,
        ApiError::Json(_) => "json_error"@,
        ApiError::Api => "api_error"@,
        ApiError::Authentication(_) => "authentication_error"@,
        ApiError::Clickhouse(_) => "clickhouse_error"@,
    }
}

/// The human-readable description of an error.
pub open spec fn description_of(e: ApiError) -> Seq<char> {
    match e {
        ApiError::Env => "Environment Error"@,
        ApiError::InvalidInput(m) => "Invalid Input: "@ + m@,
        ApiError::Json(m) => "Deserialization error: "@ + m@,
        ApiError::Api => "Error while communicating to labrinth"@,
        ApiError::Authentication(m) => "Invalid Authentication Credentials: "@ + m@,
        ApiError::Clickhouse(m) => "Clickhouse error: "@ + m@,
    }
}

impl ApiError {
    /// The HTTP status answered with this error.
    pub fn status_code(&self) -> (r: u16)
        ensures
            r == status_of(*self),
    {
        match self {
            ApiError::Env => 500,
            ApiError::InvalidInput(_) => 400,
            ApiError::Json(_) => 400,
            ApiError::Api => 424,
            ApiError::Authentication(_) => 401,
            ApiError::Clickhouse(_) => 500,
        }
    }

    /// The machine-readable name put in the error body.
    pub fn error_name(&self) -> (r: &'static str)
        ensures
            r@ == name_of(*self),
    {
        match self {
            ApiError::Env => "environment_error",
            ApiError::InvalidInput(_) => "invalid_input",
            ApiError::Json(_) => "json_error",
            ApiError::Api => "api_error",
            ApiError::Authentication(_) => "authentication_error",
            ApiError::Clickhouse(_) => "clickhouse_error",
        }
    }

    /// The description put in the error body.
    pub fn description(&self) -> (r: String)
        ensures
            r@ == description_of(*self),
    {
        match self {
            ApiError::Env => String::from_str("Environment Error"),
            ApiError::InvalidInput(m) => String::from_str("Invalid Input: ").concat(m.as_str()),
            ApiError::Json(m) => String::from_str("Deserialization error: ").concat(m.as_str()),
            ApiError::Api => String::from_str("Error while communicating to labrinth"),
            ApiError::Authentication(m) => String::from_str("Invalid Authentication Credentials: ").concat(
                m.as_str(),
            ),
            ApiError::Clickhouse(m) => String::from_str("Clickhouse error: ").concat(m.as_str()),
        }
    }

    /// The error body, borrowing the description from `description`.
    pub fn error_response<'a>(&self, description: &'a str) -> (r: RawError<'a>)
        ensures
            r.error@ == name_of(*self),
            r.description@ == description@,
    {
        RawError { error: self.error_name(), description }
    }
}

} // verus!
