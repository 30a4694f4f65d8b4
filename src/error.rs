use vstd::prelude::*;
use vstd::string::StringExecFns;

verus! {

/// Every failure that a request or a session can end in.
#[derive(Debug)]
pub enum ApiError {
    /// The persistence gateway was unreachable or refused the operation.
    Database(String),
    /// The username or password was wrong.
    InvalidCredentials,
    /// No valid session, or the caller is not allowed to do this.
    Unauthorized,
    /// The request body or parameters are invalid.
    BadRequest(String),
    /// A profile, conversation or other record does not exist.
    NotFound(String),
    /// An unexpected internal failure.
    Internal(String),
}

/// The HTTP status that answers each kind of error.
pub open spec fn status_of(e: ApiError) -> u16 {
    match e {
        ApiError::Database(_) => 502,
        ApiError::InvalidCredentials => 401,
        ApiError::Unauthorized => 401,
        ApiError::BadRequest(_) => 400,
        ApiError::NotFound(_) => 404,
        ApiError::Internal(_) => 500,
    }
}

/// The human-readable text of each kind of error.
pub open spec fn message_of(e: ApiError) -> Seq<char> {
    match e {
        ApiError::Database(m) => "Database error: "@ + m@,
        ApiError::InvalidCredentials => "Invalid username or password"@,
        ApiError::Unauthorized => "You must be logged in to do that"@,
        ApiError::BadRequest(m) => "Bad request: "@ + m@,
        ApiError::NotFound(m) => "Not found: "@ + m@,
        ApiError::Internal(m) => "Internal error: "@ + m@,
    }
}

/// The variant of an error, without its message.
pub enum ApiErrorKind {
    Database,
    InvalidCredentials,
    Unauthorized,
    BadRequest,
    NotFound,
    Internal,
}

pub open spec fn kind_of(e: ApiError) -> ApiErrorKind {
    match e {
        ApiError::Database(_) => ApiErrorKind::Database,
        ApiError::InvalidCredentials => ApiErrorKind::InvalidCredentials,
        ApiError::Unauthorized => ApiErrorKind::Unauthorized,
        ApiError::BadRequest(_) => ApiErrorKind::BadRequest,
        ApiError::NotFound(_) => ApiErrorKind::NotFound,
        ApiError::Internal(_) => ApiErrorKind::Internal,
    }
}

/// The message that an error carries; empty for the kinds that carry none.
pub open spec fn text_of(e: ApiError) -> Seq<char> {
    match e {
        ApiError::Database(m) => m@,
        ApiError::BadRequest(m) => m@,
        ApiError::NotFound(m) => m@,
        ApiError::Internal(m) => m@,
        _ => Seq::empty(),
    }
}

/// Whether `e` is an error of kind `k` that carries the message `m`.
pub open spec fn is_error(e: ApiError, k: ApiErrorKind, m: Seq<char>) -> bool {
    kind_of(e) == k && text_of(e) == m
}

impl ApiError {
    /// The HTTP status code that this error is answered with.
    pub fn status_code(&self) -> (r: u16)
        ensures
            r == status_of(*self),
    {
        match self {
            ApiError::Database(_) => 502,
            ApiError::InvalidCredentials => 401,
            ApiError::Unauthorized => 401,
            ApiError::BadRequest(_) => 400,
            ApiError::NotFound(_) => 404,
            ApiError::Internal(_) => 500,
        }
    }

    /// The text shown to the caller for this error.
    pub fn message(&self) -> (r: String)
        ensures
            r@ == message_of(*self),
    {
        match self {
            ApiError::Database(m) => String::from_str("Database error: ").concat(m.as_str()),
            ApiError::InvalidCredentials => String::from_str("Invalid username or password"),
            ApiError::Unauthorized => String::from_str("You must be logged in to do that"),
            ApiError::BadRequest(m) => String::from_str("Bad request: ").concat(m.as_str()),
            ApiError::NotFound(m) => String::from_str("Not found: ").concat(m.as_str()),
            ApiError::Internal(m) => String::from_str("Internal error: ").concat(m.as_str()),
        }
    }

    /// An error that carries a message, built from a string slice.
    pub fn bad_request(msg: &str) -> (r: ApiError)
        ensures
            r is BadRequest && r->BadRequest_0@ == msg@,
    {
        ApiError::BadRequest(String::from_str(msg))
    }
}

} // verus!
