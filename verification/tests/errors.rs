use image_cache::errors::{DatabaseError, ErrorToResponse, ServiceError};

#[test]
fn status_codes_follow_the_taxonomy() {
    assert_eq!(ServiceError::ClosedForRegistration.status_code(), 403);
    assert_eq!(ServiceError::EmailInvalid.status_code(), 400);
    assert_eq!(ServiceError::WrongPasswordOrUsername.status_code(), 403);
    assert_eq!(ServiceError::UsernameNotFound.status_code(), 404);
    assert_eq!(ServiceError::UserNotFound.status_code(), 404);
    assert_eq!(ServiceError::AccountNotFound.status_code(), 404);
    assert_eq!(ServiceError::TokenNotFound.status_code(), 401);
    assert_eq!(ServiceError::TokenExpired.status_code(), 401);
    assert_eq!(ServiceError::TokenInvalid.status_code(), 401);
    assert_eq!(ServiceError::Unauthorized.status_code(), 403);
    assert_eq!(ServiceError::TrackerOffline.status_code(), 500);
    assert_eq!(ServiceError::BadRequest.status_code(), 400);
    assert_eq!(ServiceError::EmailNotVerified.status_code(), 403);
}

#[test]
fn unlisted_errors_are_internal_server_errors() {
    assert_eq!(ServiceError::InternalServerError.status_code(), 500);
    assert_eq!(ServiceError::EmailMissing.status_code(), 500);
    assert_eq!(ServiceError::FailedToSendVerificationEmail.status_code(), 500);
}

#[test]
fn messages_are_fixed_per_variant() {
    assert_eq!(ServiceError::InternalServerError.message(), "internal server error");
    assert_eq!(ServiceError::EmailMissing.message(), "Email is required");
    assert_eq!(
        ServiceError::WrongPasswordOrUsername.message(),
        "Invalid username/email or password"
    );
    assert_eq!(ServiceError::PasswordTooLong.message(), "Username too long");
    assert_eq!(ServiceError::TokenNotFound.message(), "Token not found. Please sign in.");
    assert_eq!(ServiceError::CategoryExists.message(), "Category already exists..");
}

#[test]
fn database_errors_translate_to_service_errors() {
    assert_eq!(ServiceError::from(DatabaseError::Error), ServiceError::InternalServerError);
    assert_eq!(ServiceError::from(DatabaseError::UsernameTaken), ServiceError::UsernameTaken);
    assert_eq!(ServiceError::from(DatabaseError::EmailTaken), ServiceError::EmailTaken);
    assert_eq!(ServiceError::from(DatabaseError::UserNotFound), ServiceError::UserNotFound);
    assert_eq!(
        ServiceError::from(DatabaseError::CategoryAlreadyExists),
        ServiceError::CategoryExists
    );
    assert_eq!(
        ServiceError::from(DatabaseError::CategoryNotFound),
        ServiceError::InvalidCategory
    );
    assert_eq!(ServiceError::from(DatabaseError::TorrentNotFound), ServiceError::TorrentNotFound);
    assert_eq!(
        ServiceError::from(DatabaseError::TorrentAlreadyExists),
        ServiceError::InfoHashAlreadyExists
    );
    assert_eq!(
        ServiceError::from(DatabaseError::TorrentTitleAlreadyExists),
        ServiceError::TorrentTitleAlreadyExists
    );
    assert_eq!(
        ServiceError::from(DatabaseError::UnrecognizedDatabaseDriver),
        ServiceError::InternalServerError
    );
}

#[test]
fn an_error_response_carries_the_message() {
    let body = ErrorToResponse { error: ServiceError::BadRequest.message() };
    assert_eq!(body.error, "Bad request.");
}
