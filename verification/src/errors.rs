//! The service-level error taxonomy of the surrounding backend.
//!
//! [`ServiceError`] is what request handlers return to clients; every
//! variant carries a fixed human-readable message and maps to a fixed
//! HTTP status code. [`DatabaseError`] is the failure taxonomy of the
//! database collaborator, translated into service errors by `From`.

use vstd::prelude::*;

verus! {

use vstd::string::StringExecFns;

/// An error a request handler reports to a client.
#[derive(Clone, Copy, Debug, PartialEq, Eq, Structural)]
#[allow(dead_code)]
pub enum ServiceError {
    InternalServerError,
    ClosedForRegistration,
    EmailMissing,
    EmailInvalid,
    NotAUrl,
    WrongPasswordOrUsername,
    UsernameNotFound,
    UserNotFound,
    AccountNotFound,
    /// The value passed contains profanity.
    ProfanityError,
    /// The value passed contains blacklisted words.
    BlacklistError,
    /// The value passed contains characters outside the allowed
    /// case-mapped profile.
    UsernameCaseMappedError,
    PasswordTooShort,
    PasswordTooLong,
    PasswordsDontMatch,
    /// The username is already taken.
    UsernameTaken,
    UsernameInvalid,
    /// The email is already taken.
    EmailTaken,
    EmailNotVerified,
    /// Token not found.
    TokenNotFound,
    /// Token expired.
    TokenExpired,
    /// Token invalid.
    TokenInvalid,
    TorrentNotFound,
    InvalidTorrentFile,
    InvalidTorrentPiecesLength,
    InvalidFileType,
    BadRequest,
    InvalidCategory,
    Unauthorized,
    InfoHashAlreadyExists,
    TorrentTitleAlreadyExists,
    TrackerOffline,
    FailedToSendVerificationEmail,
    CategoryExists,
    InvitationMissing,
}

/// Outcome of a request that may fail with a [`ServiceError`].
pub type ServiceResult<V> = Result<V, ServiceError>;

/// Body of an error response.
pub struct ErrorToResponse {
    pub error: String,
}

impl ServiceError {
    /// The HTTP status code this error is reported with.
    pub open spec fn spec_status_code(self) -> u16 {
        match self {
            ServiceError::ClosedForRegistration => 403,
            ServiceError::EmailInvalid => 400,
            ServiceError::NotAUrl => 400,
            ServiceError::WrongPasswordOrUsername => 403,
            ServiceError::UsernameNotFound => 404,
            ServiceError::UserNotFound => 404,
            ServiceError::AccountNotFound => 404,
            ServiceError::ProfanityError => 400,
            ServiceError::BlacklistError => 400,
            ServiceError::UsernameCaseMappedError => 400,
            ServiceError::PasswordTooShort => 400,
            ServiceError::PasswordTooLong => 400,
            ServiceError::PasswordsDontMatch => 400,
            ServiceError::UsernameTaken => 400,
            ServiceError::UsernameInvalid => 400,
            ServiceError::EmailTaken => 400,
            ServiceError::EmailNotVerified => 403,
            ServiceError::TokenNotFound => 401,
            ServiceError::TokenExpired => 401,
            ServiceError::TokenInvalid => 401,
            ServiceError::TorrentNotFound => 400,
            ServiceError::InvalidTorrentFile => 400,
            ServiceError::InvalidTorrentPiecesLength => 400,
            ServiceError::InvalidFileType => 400,
            ServiceError::BadRequest => 400,
            ServiceError::InvalidCategory => 400,
            ServiceError::Unauthorized => 403,
            ServiceError::InfoHashAlreadyExists => 400,
            ServiceError::TorrentTitleAlreadyExists => 400,
            ServiceError::TrackerOffline => 500,
            ServiceError::CategoryExists => 400,
            ServiceError::InvitationMissing => 400,
            _ => 500,
        }
    }

    /// The message this error is reported with.
    pub open spec fn spec_message(self) -> Seq<char> {
        match self {
            ServiceError::InternalServerError => "internal server error"@,
            ServiceError::ClosedForRegistration => "This server is is closed for registration. Contact admin if this is unexpected"@,
            ServiceError::EmailMissing => "Email is required"@,
            ServiceError::EmailInvalid => "Please enter a valid email address"@,
            ServiceError::NotAUrl => "The value you entered for URL is not a URL"@,
            ServiceError::WrongPasswordOrUsername => "Invalid username/email or password"@,
            ServiceError::UsernameNotFound => "Username not found"@,
            ServiceError::UserNotFound => "User not found"@,
            ServiceError::AccountNotFound => "Account not found"@,
            ServiceError::ProfanityError => "Can't allow profanity in usernames"@,
            ServiceError::BlacklistError => "Username contains blacklisted words"@,
            ServiceError::UsernameCaseMappedError => "username_case_mapped violation"@,
            ServiceError::PasswordTooShort => "Password too short"@,
            ServiceError::PasswordTooLong => "Username too long"@,
            ServiceError::PasswordsDontMatch => "Passwords don't match"@,
            ServiceError::UsernameTaken => "Username not available"@,
            ServiceError::UsernameInvalid => "Username contains illegal characters"@,
            ServiceError::EmailTaken => "Email not available"@,
            ServiceError::EmailNotVerified => "Please verify your email before logging in"@,
            ServiceError::TokenNotFound => "Token not found. Please sign in."@,
            ServiceError::TokenExpired => "Token expired. Please sign in again."@,
            ServiceError::TokenInvalid => "Token invalid."@,
            ServiceError::TorrentNotFound => "Torrent not found."@,
            ServiceError::InvalidTorrentFile => "Uploaded torrent is not valid."@,
            ServiceError::InvalidTorrentPiecesLength => "Uploaded torrent has an invalid pieces key."@,
            ServiceError::InvalidFileType => "Only .torrent files can be uploaded."@,
            ServiceError::BadRequest => "Bad request."@,
            ServiceError::InvalidCategory => "Selected category does not exist."@,
            ServiceError::Unauthorized => "Unauthorized action."@,
            ServiceError::InfoHashAlreadyExists => "This torrent already exists in our database."@,
            ServiceError::TorrentTitleAlreadyExists => "This torrent title has already been used."@,
            ServiceError::TrackerOffline => "Sorry, we have an error with our tracker connection."@,
            ServiceError::FailedToSendVerificationEmail => "Failed to send verification email."@,
            ServiceError::CategoryExists => "Category already exists.."@,
            ServiceError::InvitationMissing => "Invitation is required."@,
        }
    }

    /// The HTTP status code this error is reported with.
    pub fn status_code(&self) -> (code: u16)
        ensures
            code == self.spec_status_code(),
    {
        match self {
            ServiceError::ClosedForRegistration => 403,
            ServiceError::EmailInvalid => 400,
            ServiceError::NotAUrl => 400,
            ServiceError::WrongPasswordOrUsername => 403,
            ServiceError::UsernameNotFound => 404,
            ServiceError::UserNotFound => 404,
            ServiceError::AccountNotFound => 404,
            ServiceError::ProfanityError => 400,
            ServiceError::BlacklistError => 400,
            ServiceError::UsernameCaseMappedError => 400,
            ServiceError::PasswordTooShort => 400,
            ServiceError::PasswordTooLong => 400,
            ServiceError::PasswordsDontMatch => 400,
            ServiceError::UsernameTaken => 400,
            ServiceError::UsernameInvalid => 400,
            ServiceError::EmailTaken => 400,
            ServiceError::EmailNotVerified => 403,
            ServiceError::TokenNotFound => 401,
            ServiceError::TokenExpired => 401,
            ServiceError::TokenInvalid => 401,
            ServiceError::TorrentNotFound => 400,
            ServiceError::InvalidTorrentFile => 400,
            ServiceError::InvalidTorrentPiecesLength => 400,
            ServiceError::InvalidFileType => 400,
            ServiceError::BadRequest => 400,
            ServiceError::InvalidCategory => 400,
            ServiceError::Unauthorized => 403,
            ServiceError::InfoHashAlreadyExists => 400,
            ServiceError::TorrentTitleAlreadyExists => 400,
            ServiceError::TrackerOffline => 500,
            ServiceError::CategoryExists => 400,
            ServiceError::InvitationMissing => 400,
            _ => 500,
        }
    }

    /// The message this error is reported with.
    pub fn message(&self) -> (msg: String)
        ensures
            msg@ == self.spec_message(),
    {
        match self {
            ServiceError::InternalServerError => String::from_str("internal server error"),
            ServiceError::ClosedForRegistration => String::from_str(
                "This server is is closed for registration. Contact admin if this is unexpected",
            ),
            ServiceError::EmailMissing => String::from_str("Email is required"),
            ServiceError::EmailInvalid => String::from_str("Please enter a valid email address"),
            ServiceError::NotAUrl => String::from_str("The value you entered for URL is not a URL"),
            ServiceError::WrongPasswordOrUsername => String::from_str(
                "Invalid username/email or password",
            ),
            ServiceError::UsernameNotFound => String::from_str("Username not found"),
            ServiceError::UserNotFound => String::from_str("User not found"),
            ServiceError::AccountNotFound => String::from_str("Account not found"),
            ServiceError::ProfanityError => String::from_str(
                "Can't allow profanity in usernames",
            ),
            ServiceError::BlacklistError => String::from_str(
                "Username contains blacklisted words",
            ),
            ServiceError::UsernameCaseMappedError => String::from_str(
                "username_case_mapped violation",
            ),
            ServiceError::PasswordTooShort => String::from_str("Password too short"),
            ServiceError::PasswordTooLong => String::from_str("Username too long"),
            ServiceError::PasswordsDontMatch => String::from_str("Passwords don't match"),
            ServiceError::UsernameTaken => String::from_str("Username not available"),
            ServiceError::UsernameInvalid => String::from_str(
                "Username contains illegal characters",
            ),
            ServiceError::EmailTaken => String::from_str("Email not available"),
            ServiceError::EmailNotVerified => String::from_str(
                "Please verify your email before logging in",
            ),
            ServiceError::TokenNotFound => String::from_str("Token not found. Please sign in."),
            ServiceError::TokenExpired => String::from_str("Token expired. Please sign in again."),
            ServiceError::TokenInvalid => String::from_str("Token invalid."),
            ServiceError::TorrentNotFound => String::from_str("Torrent not found."),
            ServiceError::InvalidTorrentFile => String::from_str(
                "Uploaded torrent is not valid.",
            ),
            ServiceError::InvalidTorrentPiecesLength => String::from_str(
                "Uploaded torrent has an invalid pieces key.",
            ),
            ServiceError::InvalidFileType => String::from_str(
                "Only .torrent files can be uploaded.",
            ),
            ServiceError::BadRequest => String::from_str("Bad request."),
            ServiceError::InvalidCategory => String::from_str(
                "Selected category does not exist.",
            ),
            ServiceError::Unauthorized => String::from_str("Unauthorized action."),
            ServiceError::InfoHashAlreadyExists => String::from_str(
                "This torrent already exists in our database.",
            ),
            ServiceError::TorrentTitleAlreadyExists => String::from_str(
                "This torrent title has already been used.",
            ),
            ServiceError::TrackerOffline => String::from_str(
                "Sorry, we have an error with our tracker connection.",
            ),
            ServiceError::FailedToSendVerificationEmail => String::from_str(
                "Failed to send verification email.",
            ),
            ServiceError::CategoryExists => String::from_str("Category already exists.."),
            ServiceError::InvitationMissing => String::from_str("Invitation is required."),
        }
    }
}

/// Failure kinds reported by the database collaborator.
#[derive(Clone, Copy, Debug, PartialEq, Eq, Structural)]
pub enum DatabaseError {
    Error,
    UsernameTaken,
    EmailTaken,
    UserNotFound,
    CategoryAlreadyExists,
    CategoryNotFound,
    TorrentNotFound,
    TorrentAlreadyExists,
    TorrentTitleAlreadyExists,
    UnrecognizedDatabaseDriver,
}

impl From<DatabaseError> for ServiceError {
    fn from(e: DatabaseError) -> (r: ServiceError) {
        match e {
            DatabaseError::Error => ServiceError::InternalServerError,
            DatabaseError::UsernameTaken => ServiceError::UsernameTaken,
            DatabaseError::EmailTaken => ServiceError::EmailTaken,
            DatabaseError::UserNotFound => ServiceError::UserNotFound,
            DatabaseError::CategoryAlreadyExists => ServiceError::CategoryExists,
            DatabaseError::CategoryNotFound => ServiceError::InvalidCategory,
            DatabaseError::TorrentNotFound => ServiceError::TorrentNotFound,
            DatabaseError::TorrentAlreadyExists => ServiceError::InfoHashAlreadyExists,
            DatabaseError::TorrentTitleAlreadyExists => ServiceError::TorrentTitleAlreadyExists,
            DatabaseError::UnrecognizedDatabaseDriver => ServiceError::InternalServerError,
        }
    }
}

impl vstd::std_specs::convert::FromSpecImpl<DatabaseError> for ServiceError {
    open spec fn obeys_from_spec() -> bool {
        true
    }

    open spec fn from_spec(e: DatabaseError) -> ServiceError {
        match e {
            DatabaseError::Error => ServiceError::InternalServerError,
            DatabaseError::UsernameTaken => ServiceError::UsernameTaken,
            DatabaseError::EmailTaken => ServiceError::EmailTaken,
            DatabaseError::UserNotFound => ServiceError::UserNotFound,
            DatabaseError::CategoryAlreadyExists => ServiceError::CategoryExists,
            DatabaseError::CategoryNotFound => ServiceError::InvalidCategory,
            DatabaseError::TorrentNotFound => ServiceError::TorrentNotFound,
            DatabaseError::TorrentAlreadyExists => ServiceError::InfoHashAlreadyExists,
            DatabaseError::TorrentTitleAlreadyExists => ServiceError::TorrentTitleAlreadyExists,
            DatabaseError::UnrecognizedDatabaseDriver => ServiceError::InternalServerError,
        }
    }
}

} // verus!
