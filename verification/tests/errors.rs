use ad_marketplace::errors::{
    AppError, AppErrorType, BAD_REQUEST, INTERNAL_SERVER_ERROR, NOT_FOUND,
};

fn of_kind(error_type: AppErrorType) -> AppError {
    AppError::new(None, None, error_type)
}

#[test]
fn a_new_failure_holds_what_it_was_given() {
    let error = AppError::new(
        Some("told".to_string()),
        Some("because".to_string()),
        AppErrorType::DbError,
    );
    assert_eq!(error.message.as_deref(), Some("told"));
    assert_eq!(error.cause.as_deref(), Some("because"));
    assert_eq!(error.error_type, AppErrorType::DbError);
}

#[test]
fn a_failure_with_a_message_shows_its_message() {
    let error = AppError::new(Some("told".to_string()), None, AppErrorType::NotFoundError);
    assert_eq!(error.message(), "told");
    assert_eq!(error.error_response().error, "told");
}

#[test]
fn a_missing_row_without_a_message_says_that_it_was_not_found() {
    let error = AppError::new(None, Some("because".to_string()), AppErrorType::NotFoundError);
    assert_eq!(error.message(), "The requested item was not found");
    assert_eq!(error.error_response().error, "The requested item was not found");
}

#[test]
fn any_other_failure_without_a_message_says_that_something_unexpected_happened() {
    for error_type in [
        AppErrorType::DbError,
        AppErrorType::UnverifiedAdError,
        AppErrorType::RejectedAdError,
        AppErrorType::SomethingWentWrong,
        AppErrorType::PasswordOrLoginError,
        AppErrorType::AuthorizeError,
        AppErrorType::IoError,
    ] {
        assert_eq!(of_kind(error_type).message(), "An unexpected error has occurred");
    }
}

#[test]
fn each_kind_of_failure_has_its_status() {
    assert_eq!((BAD_REQUEST, NOT_FOUND, INTERNAL_SERVER_ERROR), (400, 404, 500));
    assert_eq!(of_kind(AppErrorType::DbError).status_code(), 500);
    assert_eq!(of_kind(AppErrorType::SomethingWentWrong).status_code(), 500);
    assert_eq!(of_kind(AppErrorType::NotFoundError).status_code(), 404);
    assert_eq!(of_kind(AppErrorType::PasswordOrLoginError).status_code(), 400);
    assert_eq!(of_kind(AppErrorType::UnverifiedAdError).status_code(), 400);
    assert_eq!(of_kind(AppErrorType::RejectedAdError).status_code(), 400);
    assert_eq!(of_kind(AppErrorType::AuthorizeError).status_code(), 500);
    assert_eq!(of_kind(AppErrorType::IoError).status_code(), 500);
}

#[test]
fn failures_are_made_with_a_message_or_with_a_cause() {
    let told = AppError::with_message("Ad is rejected", AppErrorType::RejectedAdError);
    assert_eq!(told.message.as_deref(), Some("Ad is rejected"));
    assert_eq!(told.cause, None);
    assert_eq!(told.error_type, AppErrorType::RejectedAdError);

    let caused = AppError::with_cause("timeout".to_string(), AppErrorType::DbError);
    assert_eq!(caused.message, None);
    assert_eq!(caused.cause.as_deref(), Some("timeout"));
    assert_eq!(caused.error_type, AppErrorType::DbError);
}

#[test]
fn a_message_that_did_not_arrive_is_something_that_went_wrong() {
    let closed = AppError::from_mailbox(actix::MailboxError::Closed);
    assert_eq!(closed.error_type, AppErrorType::SomethingWentWrong);
    assert_eq!(closed.message.as_deref(), Some("Something went wrong"));
    assert_eq!(closed.cause, Some(actix::MailboxError::Closed.to_string()));
    assert_eq!(closed.status_code(), 500);

    let late = AppError::from_mailbox(actix::MailboxError::Timeout);
    assert_eq!(late.cause, Some(actix::MailboxError::Timeout.to_string()));
    assert_ne!(late.cause, closed.cause);
}

#[test]
fn a_failed_query_is_a_failure_of_the_store() {
    let error = AppError::from(diesel::result::Error::NotFound);
    assert_eq!(error.error_type, AppErrorType::DbError);
    assert_eq!(error.message, None);
    assert_eq!(error.cause.as_deref(), Some("Record not found"));
    assert_eq!(error.message(), "An unexpected error has occurred");

    let rolled_back = AppError::from(diesel::result::Error::RollbackTransaction);
    assert_eq!(rolled_back.error_type, AppErrorType::DbError);
    assert_eq!(rolled_back.cause, Some(diesel::result::Error::RollbackTransaction.to_string()));
}

#[test]
fn a_connection_that_cannot_be_tried_is_a_failure_of_the_store() {
    let error = AppError::from(diesel::r2d2::Error::QueryError(diesel::result::Error::NotFound));
    assert_eq!(error.error_type, AppErrorType::DbError);
    assert_eq!(error.message, None);
    assert_eq!(error.cause.as_deref(), Some("Record not found"));
}

#[test]
fn a_failed_read_or_write_is_a_failure_of_its_own_kind() {
    let error = AppError::from(std::io::Error::new(std::io::ErrorKind::Other, "disk full"));
    assert_eq!(error.error_type, AppErrorType::IoError);
    assert_eq!(error.message, None);
    assert_eq!(error.cause.as_deref(), Some("disk full"));
    assert_eq!(error.status_code(), 500);
}

#[test]
fn a_failure_turns_into_the_question_mark() {
    fn read() -> Result<u8, AppError> {
        let failed: Result<u8, std::io::Error> =
            Err(std::io::Error::new(std::io::ErrorKind::NotFound, "no such file"));
        Ok(failed?)
    }
    assert_eq!(read().unwrap_err().error_type, AppErrorType::IoError);
}

/// A manager of connections that never has one to give.
struct NoDatabase;

impl r2d2::ManageConnection for NoDatabase {
    type Connection = ();
    type Error = std::io::Error;

    fn connect(&self) -> Result<(), std::io::Error> {
        Err(std::io::Error::new(std::io::ErrorKind::ConnectionRefused, "nobody listens"))
    }

    fn is_valid(&self, _: &mut ()) -> Result<(), std::io::Error> {
        Ok(())
    }

    fn has_broken(&self, _: &mut ()) -> bool {
        false
    }
}

#[test]
fn a_pool_that_gives_no_connection_in_time_is_a_failure_of_the_store() {
    let pool = r2d2::Pool::builder()
        .max_size(1)
        .min_idle(Some(0))
        .connection_timeout(std::time::Duration::from_millis(20))
        .error_handler(Box::new(r2d2::NopErrorHandler))
        .build_unchecked(NoDatabase);
    let timed_out = pool.get().unwrap_err();
    let said = timed_out.to_string();
    let error = AppError::from(timed_out);
    assert_eq!(error.error_type, AppErrorType::DbError);
    assert_eq!(error.message, None);
    assert_eq!(error.cause, Some(said));
    assert_eq!(error.status_code(), 500);
}
