//! The closed taxonomy of failures that the gateway itself synthesizes, and
//! the mapping of each to an HTTP status and a client-safe envelope.
use vstd::prelude::*;
use vstd::string::*;

verus! {

/// A failure raised by the gateway, with a human-readable reason.
pub enum ApiError {
    NotFound(String),
    BadRequest(String),
    Unauthorized(String),
    Forbidden(String),
    ServiceUnavailable(String),
    InternalServerError(String),
    RequestTimeout(String),
}

/// The response envelope for an error that the gateway synthesizes.
pub struct ErrorResponse {
    pub status: u16,
    pub message: String,
    pub details: Option<String>,
}

impl ApiError {
    /// The HTTP status that each kind maps to.
    pub open spec fn spec_status(&self) -> u16 {
        match self {
            ApiError::NotFound(_) => 404,
            ApiError::BadRequest(_) => 400,
            ApiError::Unauthorized(_) => 401,
            ApiError::Forbidden(_) => 403,
            ApiError::ServiceUnavailable(_) => 503,
            ApiError::InternalServerError(_) => 500,
            ApiError::RequestTimeout(_) => 504,
        }
    }

    /// The canonical message prefix of each kind.
    pub open spec fn spec_prefix(&self) -> Seq<char> {
        match self {
            ApiError::NotFound(_) => "Not found: "@,
            ApiError::BadRequest(_) => "Bad request: "@,
            ApiError::Unauthorized(_) => "Unauthorized: "@,
            ApiError::Forbidden(_) => "Forbidden: "@,
            ApiError::ServiceUnavailable(_) => "Service unavailable: "@,
            ApiError::InternalServerError(_) => "Internal server error: "@,
            ApiError::RequestTimeout(_) => "Request timeout: "@,
        }
    }

    /// The reason that the error carries.
    pub open spec fn spec_reason(&self) -> Seq<char> {
        match self {
            ApiError::NotFound(s) => s@,
            ApiError::BadRequest(s) => s@,
            ApiError::Unauthorized(s) => s@,
            ApiError::Forbidden(s) => s@,
            ApiError::ServiceUnavailable(s) => s@,
            ApiError::InternalServerError(s) => s@,
            ApiError::RequestTimeout(s) => s@,
        }
    }

    /// The client-visible message: the kind's prefix followed by the reason.
    pub open spec fn spec_message(&self) -> Seq<char> {
        self.spec_prefix() + self.spec_reason()
    }

    pub fn status_code(&self) -> (r: u16)
        ensures
            r == self.spec_status(),
    {
        match self {
            ApiError::NotFound(_) => 404,
            ApiError::BadRequest(_) => 400,
            ApiError::Unauthorized(_) => 401,
            ApiError::Forbidden(_) => 403,
            ApiError::ServiceUnavailable(_) => 503,
            ApiError::InternalServerError(_) => 500,
            ApiError::RequestTimeout(_) => 504,
        }
    }

    /// The message text of the error, as a client sees it.
    pub fn message(&self) -> (r: String)
        ensures
            r@ == self.spec_message(),
    {
        let (prefix, reason): (&str, &String) = match self {
            ApiError::NotFound(s) => ("Not found: ", s),
            ApiError::BadRequest(s) => ("Bad request: ", s),
            ApiError::Unauthorized(s) => ("Unauthorized: ", s),
            ApiError::Forbidden(s) => ("Forbidden: ", s),
            ApiError::ServiceUnavailable(s) => ("Service unavailable: ", s),
            ApiError::InternalServerError(s) => ("Internal server error: ", s),
            ApiError::RequestTimeout(s) => ("Request timeout: ", s),
        };
        let mut m = String::from_str(prefix);
        m.append(reason.as_str());
        m
    }

    /// The envelope for this error; with `include_details` it repeats the
    /// message as its details.
    pub fn to_response(&self, include_details: bool) -> (r: ErrorResponse)
        ensures
            r.status == self.spec_status(),
            r.message@ == self.spec_message(),
            include_details ==> (r.details matches Some(d) && d@ == self.spec_message()),
            !include_details ==> r.details is None,
    {
        let status = self.status_code();
        let message = self.message();
        let details = if include_details {
            Some(message.clone())
        } else {
            None
        };
        ErrorResponse { status, message, details }
    }

    /// The envelope for this error with an optional detail: the detail is
    /// disclosed only in development mode.
    pub fn normalize(&self, detail: Option<String>, dev_mode: bool) -> (r: ErrorResponse)
        ensures
            r.status == self.spec_status(),
            r.message@ == self.spec_message(),
            r.details is Some <==> (dev_mode && detail is Some),
            r.details is Some ==> r.details == detail,
    {
        let status = self.status_code();
        let message = self.message();
        let details = if dev_mode {
            detail
        } else {
            None
        };
        ErrorResponse { status, message, details }
    }
}

} // verus!
