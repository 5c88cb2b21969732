//! The error taxonomy of the service and the documents that report it.
use vstd::prelude::*;

verus! {

/// Why a request's input was refused.
#[derive(Clone, Copy, Debug, PartialEq, Eq, Structural)]
pub enum ValidationKind {
    /// The image part grew past the configured ceiling (in bytes).
    SizeExceeded { limit: u64 },
    /// The image part carried no filename.
    MissingFilename,
    /// The options document could not be read.
    MalformedOptions,
    /// No part named `image` was sent.
    MissingImage,
    /// A retrieval identifier was not a bare filename.
    InvalidIdentifier,
}

/// Why the access guard turned a request away.
#[derive(Clone, Copy, Debug, PartialEq, Eq, Structural)]
pub enum AuthKind {
    MissingKey,
    InvalidKey,
}

/// Every failure that a request can end in.
#[derive(Clone, Debug)]
pub enum ApiError {
    Validation(ValidationKind),
    Auth(AuthKind),
    NotFound,
    /// The encoder ran and exited unsuccessfully; its error output.
    ToolFailed(String),
    /// The encoder could not be started.
    ToolUnavailable,
    /// Any other failure, with its description.
    Internal(String),
}

/// The structured failure document: `{success:false, error, message}`.
#[derive(Clone, Debug)]
pub struct ErrorResponse {
    pub success: bool,
    pub error: String,
    pub message: String,
}

/// The HTTP status class of an error.
pub open spec fn status_of(e: ApiError) -> u16 {
    match e {
        ApiError::Validation(_) => 400,
        ApiError::Auth(_) => 401,
        ApiError::NotFound => 404,
        _ => 500,
    }
}

/// The `error` field of an error's document.
pub open spec fn error_title(e: ApiError) -> Seq<char> {
    match e {
        ApiError::Validation(_) => "Bad Request"@,
        ApiError::Auth(_) => "Unauthorized"@,
        ApiError::NotFound => "File not found"@,
        _ => "Internal Server Error"@,
    }
}

/// The `message` field of an error's document.
pub open spec fn error_message(e: ApiError) -> Seq<char> {
    match e {
        ApiError::Validation(ValidationKind::SizeExceeded { limit }) => "Image size exceeds maximum limit of "@
            + crate::text::digits(limit as nat, 10) + " bytes"@,
        ApiError::Validation(ValidationKind::MissingFilename) => "No filename provided"@,
        ApiError::Validation(ValidationKind::MalformedOptions) => "Invalid conversion parameters"@,
        ApiError::Validation(ValidationKind::MissingImage) => "No image file provided"@,
        ApiError::Validation(ValidationKind::InvalidIdentifier) => "Invalid image identifier"@,
        ApiError::Auth(AuthKind::MissingKey) => "API Key is required"@,
        ApiError::Auth(AuthKind::InvalidKey) => "Invalid API Key"@,
        ApiError::NotFound => "The requested image file does not exist"@,
        ApiError::ToolFailed(stderr) => "Conversion failed: cwebp conversion failed: "@ + stderr@,
        ApiError::ToolUnavailable => "Conversion failed: cwebp could not be started"@,
        ApiError::Internal(m) => m@,
    }
}

impl ApiError {
    /// The HTTP status code that reports this error.
    pub fn status(&self) -> (r: u16)
        ensures
            r == status_of(*self),
    {
        match self {
            ApiError::Validation(_) => 400,
            ApiError::Auth(_) => 401,
            ApiError::NotFound => 404,
            _ => 500,
        }
    }

    /// The failure document for this error.
    pub fn to_response(&self) -> (r: ErrorResponse)
        ensures
            !r.success,
            r.error@ == error_title(*self),
            r.message@ == error_message(*self),
    {
        let error = match self {
            ApiError::Validation(_) => String::from_str("Bad Request"),
            ApiError::Auth(_) => String::from_str("Unauthorized"),
            ApiError::NotFound => String::from_str("File not found"),
            _ => String::from_str("Internal Server Error"),
        };
        let message = match self {
            ApiError::Validation(ValidationKind::SizeExceeded { limit }) => {
                let head = String::from_str("Image size exceeds maximum limit of ");
                let n = crate::text::decimal_string(*limit);
                head.concat(n.as_str()).concat(" bytes")
            },
            ApiError::Validation(ValidationKind::MissingFilename) => String::from_str(
                "No filename provided",
            ),
            ApiError::Validation(ValidationKind::MalformedOptions) => String::from_str(
                "Invalid conversion parameters",
            ),
            ApiError::Validation(ValidationKind::MissingImage) => String::from_str(
                "No image file provided",
            ),
            ApiError::Validation(ValidationKind::InvalidIdentifier) => String::from_str(
                "Invalid image identifier",
            ),
            ApiError::Auth(AuthKind::MissingKey) => String::from_str("API Key is required"),
            ApiError::Auth(AuthKind::InvalidKey) => String::from_str("Invalid API Key"),
            ApiError::NotFound => String::from_str("The requested image file does not exist"),
            ApiError::ToolFailed(stderr) => String::from_str(
                "Conversion failed: cwebp conversion failed: ",
            ).concat(stderr.as_str()),
            ApiError::ToolUnavailable => String::from_str(
                "Conversion failed: cwebp could not be started",
            ),
            ApiError::Internal(m) => m.clone(),
        };
        ErrorResponse { success: false, error, message }
    }
}

} // verus!
