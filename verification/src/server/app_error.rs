//! The errors that the server reports, their text and the HTTP status and
//! code that an error response carries.

use vstd::prelude::*;

verus! {

/// An error of the server. Each variant holds, as plain values, what the
/// error's text and its response depend on: the text of the underlying
/// failure, and for an HTTP failure its status, for an I/O failure whether
/// it was a missing file.
#[derive(Debug)]
pub enum AppError {
    /// Any other failure; its text is shown as it is.
    Any(String),
    JsonError(String),
    RedisError(String),
    /// A failed outgoing HTTP request, with the status it got, if any.
    HttpError { message: String, status: Option<u16> },
    TryFromIntError(String),
    GenerateError(String),
    /// A failed file operation; `not_found` is whether the file was missing.
    IOError { message: String, not_found: bool },
    /// The user that was looked up is not in the store.
    NotFound,
    /// The request is refused, for the reason given.
    PermissionDenied(String),
}

/// The HTTP status of an error response and the code in its body.
pub struct ErrorStatus {
    pub http_status: u16,
    pub code: i32,
}

/// Whether an HTTP status is a client error (400 to 499).
pub open spec fn is_client_error(status: u16) -> bool {
    400 <= status && status < 500
}

impl AppError {
    /// The error's text.
    pub open spec fn text(self) -> Seq<char> {
        match self {
            AppError::Any(m) => m@,
            AppError::JsonError(m) => "internal server error: "@ + m@,
            AppError::RedisError(m) => "redis error: "@ + m@,
            AppError::HttpError { message, .. } => "http error: "@ + message@,
            AppError::TryFromIntError(m) => "invalid integer: "@ + m@,
            AppError::GenerateError(m) => "generate error: "@ + m@,
            AppError::IOError { message, .. } => "io error: "@ + message@,
            AppError::NotFound => "not found"@,
            AppError::PermissionDenied(m) => "permission denied: "@ + m@,
        }
    }

    /// The HTTP status and code that the error is answered with.
    pub open spec fn status(self) -> (u16, i32) {
        match self {
            AppError::JsonError(_) => (500, 1),
            AppError::RedisError(_) => (502, 2),
            AppError::Any(_) => (500, 3),
            AppError::HttpError { status, .. } => {
                if status matches Some(s) && is_client_error(s) {
                    (400, 4)
                } else {
                    (502, 4)
                }
            },
            AppError::TryFromIntError(_) => (400, 5),
            AppError::GenerateError(_) => (400, 6),
            AppError::IOError { not_found, .. } => {
                if not_found {
                    (404, 7)
                } else {
                    (500, 7)
                }
            },
            AppError::NotFound => (404, 8),
            AppError::PermissionDenied(_) => (403, 9),
        }
    }

    /// The error's text, as it is logged with the error response.
    pub fn message(&self) -> (s: String)
        ensures
            s@ == self.text(),
            self matches AppError::Any(m) ==> s@ == m@,
            self matches AppError::JsonError(m) ==> s@ == "internal server error: "@ + m@,
            self matches AppError::RedisError(m) ==> s@ == "redis error: "@ + m@,
            self matches AppError::HttpError { message, .. } ==> s@ == "http error: "@ + message@,
            self matches AppError::TryFromIntError(m) ==> s@ == "invalid integer: "@ + m@,
            self matches AppError::GenerateError(m) ==> s@ == "generate error: "@ + m@,
            self matches AppError::IOError { message, .. } ==> s@ == "io error: "@ + message@,
            self matches AppError::NotFound ==> s@ == "not found"@,
            self matches AppError::PermissionDenied(m) ==> s@ == "permission denied: "@ + m@,
    {
        proof {
            reveal_strlit("internal server error: ");
            reveal_strlit("redis error: ");
            reveal_strlit("http error: ");
            reveal_strlit("invalid integer: ");
            reveal_strlit("generate error: ");
            reveal_strlit("io error: ");
            reveal_strlit("not found");
            reveal_strlit("permission denied: ");
        }
        match self {
            AppError::Any(m) => m.clone(),
            AppError::JsonError(m) => String::from_str("internal server error: ").concat(m.as_str()),
            AppError::RedisError(m) => String::from_str("redis error: ").concat(m.as_str()),
            AppError::HttpError { message, .. } => String::from_str("http error: ").concat(
                message.as_str(),
            ),
            AppError::TryFromIntError(m) => String::from_str("invalid integer: ").concat(m.as_str()),
            AppError::GenerateError(m) => String::from_str("generate error: ").concat(m.as_str()),
            AppError::IOError { message, .. } => String::from_str("io error: ").concat(
                message.as_str(),
            ),
            AppError::NotFound => String::from_str("not found"),
            AppError::PermissionDenied(m) => String::from_str("permission denied: ").concat(
                m.as_str(),
            ),
        }
    }

    /// The HTTP status and the code that an error response for this error
    /// carries.
    pub fn response_status(&self) -> (r: ErrorStatus)
        ensures
            (r.http_status, r.code) == self.status(),
            self is JsonError ==> r.http_status == 500 && r.code == 1,
            self is RedisError ==> r.http_status == 502 && r.code == 2,
            self is Any ==> r.http_status == 500 && r.code == 3,
            (self matches AppError::HttpError { status: Some(s), .. } && 400 <= *s && *s < 500)
                ==> r.http_status == 400 && r.code == 4,
            (self matches AppError::HttpError { status: Some(s), .. } && !(400 <= *s && *s < 500))
                ==> r.http_status == 502 && r.code == 4,
            self matches AppError::HttpError { status: None, .. } ==> r.http_status == 502
                && r.code == 4,
            self is TryFromIntError ==> r.http_status == 400 && r.code == 5,
            self is GenerateError ==> r.http_status == 400 && r.code == 6,
            self matches AppError::IOError { not_found: true, .. } ==> r.http_status == 404
                && r.code == 7,
            self matches AppError::IOError { not_found: false, .. } ==> r.http_status == 500
                && r.code == 7,
            self is NotFound ==> r.http_status == 404 && r.code == 8,
            self is PermissionDenied ==> r.http_status == 403 && r.code == 9,
    {
        match self {
            AppError::JsonError(_) => ErrorStatus { http_status: 500, code: 1 },
            AppError::RedisError(_) => ErrorStatus { http_status: 502, code: 2 },
            AppError::Any(_) => ErrorStatus { http_status: 500, code: 3 },
            AppError::HttpError { status, .. } => {
                let client = match status {
                    Some(s) => 400 <= *s && *s < 500,
                    None => false,
                };
                if client {
                    ErrorStatus { http_status: 400, code: 4 }
                } else {
                    ErrorStatus { http_status: 502, code: 4 }
                }
            },
            AppError::TryFromIntError(_) => ErrorStatus { http_status: 400, code: 5 },
            AppError::GenerateError(_) => ErrorStatus { http_status: 400, code: 6 },
            AppError::IOError { not_found, .. } => {
                if *not_found {
                    ErrorStatus { http_status: 404, code: 7 }
                } else {
                    ErrorStatus { http_status: 500, code: 7 }
                }
            },
            AppError::NotFound => ErrorStatus { http_status: 404, code: 8 },
            AppError::PermissionDenied(_) => ErrorStatus { http_status: 403, code: 9 },
        }
    }
}

} // verus!
