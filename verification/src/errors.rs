//! Errors of the signalling server, the HTTP answer each one becomes and the
//! websocket error event each one becomes.
use vstd::prelude::*;
use vstd::string::*;
use crate::models::{ServerEvent, WsErrorCode};

verus! {

/// Why the server configuration could not be read from the environment.
#[derive(Debug, Clone, PartialEq, Eq)]
pub enum ConfigError {
    /// A variable is missing or unreadable; holds the lookup failure's text.
    MissingVar(String),
    /// An expiration variable is not a valid `i64`.
    InvalidJwtExpiration,
}

/// Every failure a request handler can report.
#[derive(Debug, Clone, PartialEq, Eq)]
pub enum AppError {
    Conflict(String),
    Config(ConfigError),
    Unauthorized,
    Forbidden,
    NotFound(String),
    BadRequest(String),
    Internal,
    PasswordHash,
    Database,
    Jwt,
}

/// Failure to reach a user over the websocket registry.
#[derive(Debug, Clone, Copy, PartialEq, Eq, Structural)]
pub enum ConnectionError {
    /// The user has no registered connection.
    NotConnected,
}

/// JSON body of every error answer.
#[derive(Debug, Clone, PartialEq, Eq)]
pub struct ErrorResponse {
    pub error: String,
}

impl ConfigError {
    /// The human-readable text of the error.
    pub open spec fn spec_message(&self) -> Seq<char> {
        match self {
            ConfigError::MissingVar(cause) => "Missing environment variable: "@ + cause@,
            ConfigError::InvalidJwtExpiration => "JWT_EXPIRATION_HOURS must be a valid integer"@,
        }
    }

    /// Renders the error as text.
    pub fn message(&self) -> (m: String)
        ensures
            m@ == self.spec_message(),
    {
        match self {
            ConfigError::MissingVar(cause) => {
                let mut m = String::from_str("Missing environment variable: ");
                m.append(cause.as_str());
                m
            },
            ConfigError::InvalidJwtExpiration => String::from_str(
                "JWT_EXPIRATION_HOURS must be a valid integer",
            ),
        }
    }
}

impl AppError {
    /// The HTTP status code that answers the error.
    pub open spec fn spec_status(&self) -> u16 {
        match self {
            AppError::Database => 500,
            AppError::Config(_) => 500,
            AppError::Unauthorized => 401,
            AppError::Forbidden => 403,
            AppError::NotFound(_) => 404,
            AppError::BadRequest(_) => 400,
            AppError::Internal => 500,
            AppError::PasswordHash => 500,
            AppError::Conflict(_) => 409,
            AppError::Jwt => 401,
        }
    }

    /// The human-readable text of the error.
    pub open spec fn spec_message(&self) -> Seq<char> {
        match self {
            AppError::Conflict(what) => "Resource conflict: "@ + what@,
            AppError::Config(_) => "Configuration Error"@,
            AppError::Unauthorized => "Unauthorized"@,
            AppError::Forbidden => "Forbidden"@,
            AppError::NotFound(what) => "Resource not found: "@ + what@,
            AppError::BadRequest(what) => what@,
            AppError::Internal => "Internal server error"@,
            AppError::PasswordHash => "Password hashing failed"@,
            AppError::Database => "Database error"@,
            AppError::Jwt => "Invalid token"@,
        }
    }

    /// The HTTP status code that answers the error.
    pub fn status_code(&self) -> (code: u16)
        ensures
            code == self.spec_status(),
    {
        match self {
            AppError::Database => 500,
            AppError::Config(_) => 500,
            AppError::Unauthorized => 401,
            AppError::Forbidden => 403,
            AppError::NotFound(_) => 404,
            AppError::BadRequest(_) => 400,
            AppError::Internal => 500,
            AppError::PasswordHash => 500,
            AppError::Conflict(_) => 409,
            AppError::Jwt => 401,
        }
    }

    /// Renders the error as text.
    pub fn message(&self) -> (m: String)
        ensures
            m@ == self.spec_message(),
    {
        match self {
            AppError::Conflict(what) => {
                let mut m = String::from_str("Resource conflict: ");
                m.append(what.as_str());
                m
            },
            AppError::Config(_) => String::from_str("Configuration Error"),
            AppError::Unauthorized => String::from_str("Unauthorized"),
            AppError::Forbidden => String::from_str("Forbidden"),
            AppError::NotFound(what) => {
                let mut m = String::from_str("Resource not found: ");
                m.append(what.as_str());
                m
            },
            AppError::BadRequest(what) => String::from_str(what.as_str()),
            AppError::Internal => String::from_str("Internal server error"),
            AppError::PasswordHash => String::from_str("Password hashing failed"),
            AppError::Database => String::from_str("Database error"),
            AppError::Jwt => String::from_str("Invalid token"),
        }
    }

    /// The status code and JSON body that answer the error.
    pub fn to_response(&self) -> (res: (u16, ErrorResponse))
        ensures
            res.0 == self.spec_status(),
            res.1.error@ == self.spec_message(),
    {
        (self.status_code(), ErrorResponse { error: self.message() })
    }
}

impl From<ConfigError> for AppError {
    fn from(err: ConfigError) -> (res: AppError) {
        AppError::Config(err)
    }
}

impl vstd::std_specs::convert::FromSpecImpl<ConfigError> for AppError {
    open spec fn obeys_from_spec() -> bool {
        true
    }

    open spec fn from_spec(err: ConfigError) -> AppError {
        AppError::Config(err)
    }
}

/// The error code of the websocket event that reports `error`.
pub open spec fn ws_error_code(error: AppError) -> WsErrorCode {
    match error {
        AppError::NotFound(_) => WsErrorCode::UserNotFound,
        AppError::Forbidden => WsErrorCode::NotFriends,
        AppError::BadRequest(_) => WsErrorCode::InvalidRequest,
        AppError::Unauthorized => WsErrorCode::Unauthorized,
        _ => WsErrorCode::InvalidRequest,
    }
}

/// The text of the websocket event that reports `error`: internal details
/// never reach the client.
pub open spec fn ws_error_message(error: AppError) -> Seq<char> {
    match error {
        AppError::NotFound(_) => "User not found."@,
        AppError::Forbidden => "You are not allowed to perform this action."@,
        AppError::BadRequest(message) => message@,
        AppError::Unauthorized => "Unauthorized."@,
        _ => "An internal server error occurred."@,
    }
}

/// Turns a handler failure into the error event sent back over the websocket.
pub fn app_error_to_ws_error(error: AppError) -> (event: ServerEvent)
    ensures
        event matches ServerEvent::Error { code, message } && code == ws_error_code(error)
            && message@ == ws_error_message(error),
{
    match error {
        AppError::NotFound(_) => ServerEvent::Error {
            code: WsErrorCode::UserNotFound,
            message: String::from_str("User not found."),
        },
        AppError::Forbidden => ServerEvent::Error {
            code: WsErrorCode::NotFriends,
            message: String::from_str("You are not allowed to perform this action."),
        },
        AppError::BadRequest(message) => ServerEvent::Error {
            code: WsErrorCode::InvalidRequest,
            message,
        },
        AppError::Unauthorized => ServerEvent::Error {
            code: WsErrorCode::Unauthorized,
            message: String::from_str("Unauthorized."),
        },
        _ => ServerEvent::Error {
            code: WsErrorCode::InvalidRequest,
            message: String::from_str("An internal server error occurred."),
        },
    }
}

} // verus!
