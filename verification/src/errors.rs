//! The failures that the marketplace reports, and how they are presented.

use vstd::prelude::*;
use vstd::std_specs::convert::FromSpecImpl;

verus! {

/// The kind of a failure.
#[derive(Debug, Clone, Copy, PartialEq, Eq, Structural)]
pub enum AppErrorType {
    /// The store refused or lost a read or a write.
    DbError,
    /// A booking was asked for an ad that no administrator has looked at yet.
    UnverifiedAdError,
    /// A booking was asked for a rejected ad, or an order already is in the
    /// state that it was asked to move to.
    RejectedAdError,
    /// A row that the request names does not exist.
    NotFoundError,
    /// A request did not reach its handler, or a login had the wrong
    /// password.
    SomethingWentWrong,
    /// A login came without a password.
    PasswordOrLoginError,
    /// A password could not be hashed or checked.
    AuthorizeError,
    /// A file could not be read or written.
    IoError,
}

/// A failure: its kind, what to tell the caller, and what lay behind it.
#[derive(Debug)]
pub struct AppError {
    pub message: Option<String>,
    pub cause: Option<String>,
    pub error_type: AppErrorType,
}

/// What an `AppError` holds, with its texts as sequences of characters.
pub struct AppErrorView {
    pub message: Option<Seq<char>>,
    pub cause: Option<Seq<char>>,
    pub error_type: AppErrorType,
}

/// The body of the response that reports a failure.
#[derive(Debug)]
pub struct AppErrorResponse {
    pub error: String,
}

/// The failure of a message to reach the one who was to handle it.
#[verifier::external_type_specification]
#[verifier::external_body]
pub struct ExMailboxError(actix::MailboxError);

/// The failure of a query.
#[verifier::external_type_specification]
#[verifier::external_body]
pub struct ExQueryError(diesel::result::Error);

/// The failure to get a connection from the pool.
#[verifier::external_type_specification]
#[verifier::external_body]
pub struct ExPoolError(r2d2::Error);

/// The failure of the pool to set up or to try a connection.
#[verifier::external_type_specification]
#[verifier::external_body]
pub struct ExConnectionError(diesel::r2d2::Error);

/// The failure of a read or a write of a file.
#[verifier::external_type_specification]
#[verifier::external_body]
pub struct ExIoError(std::io::Error);

/// The text of an optional string.
pub open spec fn text_of(text: Option<String>) -> Option<Seq<char>> {
    match text {
        Some(t) => Some(t@),
        None => None,
    }
}

/// Status of a response to a request that could not be understood or allowed.
pub const BAD_REQUEST: u16 = 400;

/// Status of a response to a request for something that does not exist.
pub const NOT_FOUND: u16 = 404;

/// Status of a response to a request that failed on the server's side.
pub const INTERNAL_SERVER_ERROR: u16 = 500;

impl View for AppError {
    type V = AppErrorView;

    open spec fn view(&self) -> AppErrorView {
        AppErrorView {
            message: text_of(self.message),
            cause: text_of(self.cause),
            error_type: self.error_type,
        }
    }
}

/// A result as its caller sees it: a failure by its view.
pub open spec fn seen<T>(result: Result<T, AppError>) -> Result<T, AppErrorView> {
    match result {
        Ok(value) => Ok(value),
        Err(error) => Err(error@),
    }
}

impl AppErrorView {
    /// A failure of kind `error_type` that tells the caller `message` and
    /// names no cause.
    pub open spec fn told(error_type: AppErrorType, message: Seq<char>) -> AppErrorView {
        AppErrorView { message: Some(message), cause: None, error_type }
    }

    /// A failure of kind `error_type` that has only a cause to show.
    pub open spec fn caused(error_type: AppErrorType, cause: Seq<char>) -> AppErrorView {
        AppErrorView { message: None, cause: Some(cause), error_type }
    }

    /// What the caller is told: the failure's own message where it has one,
    /// else a fixed sentence, which for a missing row says so.
    pub open spec fn shown(self) -> Seq<char> {
        match self.message {
            Some(message) => message,
            None => if self.error_type == AppErrorType::NotFoundError {
                "The requested item was not found"@
            } else {
                "An unexpected error has occurred"@
            },
        }
    }

    /// The status of the response that reports the failure: 404 for a missing
    /// row, 400 for a request that the rules refuse, 500 for the rest.
    pub open spec fn status(self) -> u16 {
        match self.error_type {
            AppErrorType::NotFoundError => NOT_FOUND,
            AppErrorType::PasswordOrLoginError
            | AppErrorType::UnverifiedAdError
            | AppErrorType::RejectedAdError => BAD_REQUEST,
            AppErrorType::DbError
            | AppErrorType::SomethingWentWrong
            | AppErrorType::AuthorizeError
            | AppErrorType::IoError => INTERNAL_SERVER_ERROR,
        }
    }
}

/// What a mailbox error says of itself.
///
/// Calls `to_string` on an `actix::MailboxError`, that is its `Display`.
/// Nothing is claimed of the text.
#[verifier::external_body]
fn mailbox_error_text(error: &actix::MailboxError) -> (text: String) {
    error.to_string()
}

/// What the failure of a query says of itself.
///
/// Calls `to_string` on a `diesel::result::Error`, that is its `Display`.
/// Nothing is claimed of the text.
#[verifier::external_body]
fn query_error_text(error: &diesel::result::Error) -> (text: String) {
    error.to_string()
}

/// What the pool says when it gives no connection.
///
/// Calls `to_string` on an `r2d2::Error`, that is its `Display`. Nothing is
/// claimed of the text.
#[verifier::external_body]
fn pool_error_text(error: &r2d2::Error) -> (text: String) {
    error.to_string()
}

/// What the pool says when a connection cannot be set up or tried.
///
/// Calls `to_string` on a `diesel::r2d2::Error`, that is its `Display`.
/// Nothing is claimed of the text.
#[verifier::external_body]
fn connection_error_text(error: &diesel::r2d2::Error) -> (text: String) {
    error.to_string()
}

/// What the failure of a read or a write says of itself.
///
/// Calls `to_string` on a `std::io::Error`, that is its `Display`. Nothing
/// is claimed of the text, which for a failure of the system is the
/// system's own.
#[verifier::external_body]
fn io_error_text(error: &std::io::Error) -> (text: String) {
    error.to_string()
}

impl From<diesel::result::Error> for AppError {
    /// A failed query is a failure of the store; what the query said is its
    /// cause.
    fn from(error: diesel::result::Error) -> (failure: AppError)
        ensures
            failure.error_type == AppErrorType::DbError,
            failure@.message is None,
            failure@.cause is Some,
    {
        AppError::with_cause(query_error_text(&error), AppErrorType::DbError)
    }
}

impl FromSpecImpl<diesel::result::Error> for AppError {
    open spec fn obeys_from_spec() -> bool {
        false
    }

    open spec fn from_spec(error: diesel::result::Error) -> AppError {
        arbitrary()
    }
}

impl From<r2d2::Error> for AppError {
    /// A connection that the pool did not give is a failure of the store;
    /// what the pool said is its cause.
    fn from(error: r2d2::Error) -> (failure: AppError)
        ensures
            failure.error_type == AppErrorType::DbError,
            failure@.message is None,
            failure@.cause is Some,
    {
        AppError::with_cause(pool_error_text(&error), AppErrorType::DbError)
    }
}

impl FromSpecImpl<r2d2::Error> for AppError {
    open spec fn obeys_from_spec() -> bool {
        false
    }

    open spec fn from_spec(error: r2d2::Error) -> AppError {
        arbitrary()
    }
}

impl From<diesel::r2d2::Error> for AppError {
    /// A connection that could not be set up or tried is a failure of the
    /// store; what the pool said is its cause.
    fn from(error: diesel::r2d2::Error) -> (failure: AppError)
        ensures
            failure.error_type == AppErrorType::DbError,
            failure@.message is None,
            failure@.cause is Some,
    {
        AppError::with_cause(connection_error_text(&error), AppErrorType::DbError)
    }
}

impl FromSpecImpl<diesel::r2d2::Error> for AppError {
    open spec fn obeys_from_spec() -> bool {
        false
    }

    open spec fn from_spec(error: diesel::r2d2::Error) -> AppError {
        arbitrary()
    }
}

impl From<std::io::Error> for AppError {
    /// A failed read or write is a failure of its own kind; what it said is
    /// its cause.
    fn from(error: std::io::Error) -> (failure: AppError)
        ensures
            failure.error_type == AppErrorType::IoError,
            failure@.message is None,
            failure@.cause is Some,
    {
        AppError::with_cause(io_error_text(&error), AppErrorType::IoError)
    }
}

impl FromSpecImpl<std::io::Error> for AppError {
    open spec fn obeys_from_spec() -> bool {
        false
    }

    open spec fn from_spec(error: std::io::Error) -> AppError {
        arbitrary()
    }
}

impl AppError {
    /// A failure of kind `error_type` with the message and the cause given.
    pub fn new(message: Option<String>, cause: Option<String>, error_type: AppErrorType) -> (error:
        Self)
        ensures
            error.message == message,
            error.cause == cause,
            error.error_type == error_type,
    {
        AppError { message, cause, error_type }
    }

    /// A failure of kind `error_type` that tells the caller `message`.
    pub fn with_message(message: &str, error_type: AppErrorType) -> (error: Self)
        ensures
            error@ == AppErrorView::told(error_type, message@),
    {
        AppError { message: Some(message.to_string()), cause: None, error_type }
    }

    /// A failure of kind `error_type` of which only the cause is known.
    pub fn with_cause(cause: String, error_type: AppErrorType) -> (error: Self)
        ensures
            error@ == AppErrorView::caused(error_type, cause@),
    {
        AppError { message: None, cause: Some(cause), error_type }
    }

    /// The failure to report when a message did not reach its handler.
    pub fn from_mailbox(error: actix::MailboxError) -> (failure: Self)
        ensures
            failure.error_type == AppErrorType::SomethingWentWrong,
            failure@.message == Some("Something went wrong"@),
            failure@.cause is Some,
    {
        AppError {
            message: Some("Something went wrong".to_string()),
            cause: Some(mailbox_error_text(&error)),
            error_type: AppErrorType::SomethingWentWrong,
        }
    }

    /// What the caller is told: the failure's own message where it has one,
    /// else a fixed sentence, which for a missing row says so.
    pub fn message(&self) -> (text: String)
        ensures
            text@ == self@.shown(),
    {
        match &self.message {
            Some(message) => message.clone(),
            None => match self.error_type {
                AppErrorType::NotFoundError => "The requested item was not found".to_string(),
                _ => "An unexpected error has occurred".to_string(),
            },
        }
    }

    /// The status of the response that reports the failure: 404 for a
    /// missing row, 400 for a request that the rules refuse, 500 for the
    /// rest.
    pub fn status_code(&self) -> (code: u16)
        ensures
            code == self@.status(),
            code == BAD_REQUEST || code == NOT_FOUND || code == INTERNAL_SERVER_ERROR,
    {
        match self.error_type {
            AppErrorType::DbError | AppErrorType::SomethingWentWrong => INTERNAL_SERVER_ERROR,
            AppErrorType::NotFoundError => NOT_FOUND,
            AppErrorType::PasswordOrLoginError
            | AppErrorType::UnverifiedAdError
            | AppErrorType::RejectedAdError => BAD_REQUEST,
            AppErrorType::AuthorizeError => INTERNAL_SERVER_ERROR,
            AppErrorType::IoError => INTERNAL_SERVER_ERROR,
        }
    }

    /// The body that reports this failure to the caller.
    pub fn error_response(&self) -> (body: AppErrorResponse)
        ensures
            body.error@ == self@.shown(),
    {
        AppErrorResponse { error: self.message() }
    }
}

} // verus!
