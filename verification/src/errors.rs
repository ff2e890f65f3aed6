//! The errors of the service and the body that reports one to a caller.

use vstd::prelude::*;
use vstd::std_specs::convert::FromSpecImpl;
use vstd::string::to_string_from_display_ensures;
use vstd::string::StringExecFns;

verus! {

/// `sqlx::Error`, the failure of a database call, carried as an opaque
/// value: the library reads nothing of it but its text.
#[verifier::external_type_specification]
#[verifier::external_body]
pub struct ExSqlxError(sqlx::Error);

/// `actix_web::Error`, the failure of the web framework, carried as an
/// opaque value: the library reads nothing of it but its text.
#[verifier::external_type_specification]
#[verifier::external_body]
pub struct ExActixError(actix_web::Error);

/// Why a request could not be served.
///
/// The text of `DBError` and `ActixError` is the cause, kept for the
/// operator; the text of `NotFound` is meant for the caller.
#[derive(Debug)]
pub enum TutorError {
    /// The data store failed.
    DBError(String),
    /// The response could not be built or sent.
    ActixError(String),
    /// No record matches the requested key.
    NotFound(String),
}

/// What a [`TutorError`] is, as plain mathematical values.
pub enum TutorErrorView {
    DBError(Seq<char>),
    ActixError(Seq<char>),
    NotFound(Seq<char>),
}

impl View for TutorError {
    type V = TutorErrorView;

    open spec fn view(&self) -> TutorErrorView {
        match self {
            TutorError::DBError(cause) => TutorErrorView::DBError(cause@),
            TutorError::ActixError(cause) => TutorErrorView::ActixError(cause@),
            TutorError::NotFound(message) => TutorErrorView::NotFound(message@),
        }
    }
}

impl TutorErrorView {
    /// The text shown to the caller: generic for the two internal failures,
    /// whose cause is never exposed, and the error's own text for `NotFound`.
    pub open spec fn message(self) -> Seq<char> {
        match self {
            TutorErrorView::DBError(_) => "Database error"@,
            TutorErrorView::ActixError(_) => "Internal server error"@,
            TutorErrorView::NotFound(message) => message,
        }
    }

    /// The HTTP status: 404 for `NotFound`, 500 for the internal failures.
    pub open spec fn status(self) -> int {
        match self {
            TutorErrorView::DBError(_) | TutorErrorView::ActixError(_) => 500,
            TutorErrorView::NotFound(_) => 404,
        }
    }
}

/// The body of an error response: one field, the text for the caller.
#[derive(Debug)]
pub struct ErrorResponse {
    error_message: String,
}

impl View for ErrorResponse {
    type V = Seq<char>;

    closed spec fn view(&self) -> Seq<char> {
        self.error_message@
    }
}

impl ErrorResponse {
    /// The body that carries `error_message`.
    pub fn new(error_message: String) -> (body: Self)
        ensures
            body@ == error_message@,
    {
        ErrorResponse { error_message }
    }

    /// The text for the caller.
    pub fn error_message(&self) -> (text: &String)
        ensures
            text@ == self@,
    {
        &self.error_message
    }
}

impl Clone for ErrorResponse {
    fn clone(&self) -> (copy: Self)
        ensures
            copy@ == self@,
    {
        ErrorResponse { error_message: self.error_message.clone() }
    }
}

impl Clone for TutorError {
    fn clone(&self) -> (copy: Self)
        ensures
            copy@ == self@,
    {
        match self {
            TutorError::DBError(cause) => TutorError::DBError(cause.clone()),
            TutorError::ActixError(cause) => TutorError::ActixError(cause.clone()),
            TutorError::NotFound(message) => TutorError::NotFound(message.clone()),
        }
    }
}

impl TutorError {
    /// The text shown to the caller.
    pub fn error_response(&self) -> (text: String)
        ensures
            text@ == self@.message(),
    {
        match self {
            TutorError::DBError(_) => String::from_str("Database error"),
            TutorError::ActixError(_) => String::from_str("Internal server error"),
            TutorError::NotFound(message) => message.clone(),
        }
    }

    /// The HTTP status that reports this error.
    pub fn status_code(&self) -> (code: u16)
        ensures
            code == self@.status(),
    {
        match self {
            TutorError::DBError(_) | TutorError::ActixError(_) => 500,
            TutorError::NotFound(_) => 404,
        }
    }
}

/// A failed database call is a `DBError` whose cause is the text that the
/// failure displays.
impl From<sqlx::Error> for TutorError {
    fn from(error: sqlx::Error) -> (converted: Self)
        ensures
            converted matches TutorError::DBError(cause) && to_string_from_display_ensures::<
                sqlx::Error,
            >(&error, cause),
    {
        TutorError::DBError(error.to_string())
    }
}

/// The text of a failure is whatever the database driver displays, so the
/// conversion is stated on `from` itself and not as a function of the error.
impl FromSpecImpl<sqlx::Error> for TutorError {
    open spec fn obeys_from_spec() -> bool {
        false
    }

    open spec fn from_spec(error: sqlx::Error) -> TutorError {
        arbitrary()
    }
}

/// A failure of the web framework is an `ActixError` whose cause is the
/// text that the failure displays.
impl From<actix_web::Error> for TutorError {
    fn from(error: actix_web::Error) -> (converted: Self)
        ensures
            converted matches TutorError::ActixError(cause) && to_string_from_display_ensures::<
                actix_web::Error,
            >(&error, cause),
    {
        TutorError::ActixError(error.to_string())
    }
}

/// The text of a failure is whatever the framework displays, so the
/// conversion is stated on `from` itself and not as a function of the error.
impl FromSpecImpl<actix_web::Error> for TutorError {
    open spec fn obeys_from_spec() -> bool {
        false
    }

    open spec fn from_spec(error: actix_web::Error) -> TutorError {
        arbitrary()
    }
}

} // verus!
