use vstd::prelude::*;
use vstd::string::*;

verus! {

/// A failure reported by the task store, sorted by kind, with the text that the
/// store's error displays.
#[derive(Clone, Debug)]
pub enum CoreError {
    TaskNotFound(String),
    InvalidDescription(String),
    InvalidDate(String),
    InvalidUuid(String),
    InvalidSyncUrl(String),
    SyncNotConfigured(String),
    Other(String),
}

/// A failed request, as the API answers it.
#[derive(Debug)]
pub enum AppError {
    Database(String),
    NotFound(String),
    BadRequest(String),
    Unauthorized,
    Internal(String),
    Conflict(String),
}

/// The status line and JSON body `{"error": ...}` of a failed request.
#[derive(Clone, Debug)]
pub struct ErrorResponse {
    pub status: u16,
    pub error: String,
}

pub const STATUS_BAD_REQUEST: u16 = 400;
pub const STATUS_UNAUTHORIZED: u16 = 401;
pub const STATUS_NOT_FOUND: u16 = 404;
pub const STATUS_CONFLICT: u16 = 409;
pub const STATUS_INTERNAL: u16 = 500;

/// How a failure of the task store is answered: an unknown task is not found,
/// invalid input is a bad request, sync that is not set up is a conflict,
/// and everything else is an internal error; the store's text is kept.
pub open spec fn spec_classify(e: CoreError) -> AppError {
    match e {
        CoreError::TaskNotFound(m) => AppError::NotFound(m),
        CoreError::InvalidDescription(m) => AppError::BadRequest(m),
        CoreError::InvalidDate(m) => AppError::BadRequest(m),
        CoreError::InvalidUuid(m) => AppError::BadRequest(m),
        CoreError::InvalidSyncUrl(m) => AppError::BadRequest(m),
        CoreError::SyncNotConfigured(m) => AppError::Conflict(m),
        CoreError::Other(m) => AppError::Internal(m),
    }
}

impl From<CoreError> for AppError {
    fn from(e: CoreError) -> (r: AppError) {
        match e {
            CoreError::TaskNotFound(m) => AppError::NotFound(m),
            CoreError::InvalidDescription(m) => AppError::BadRequest(m),
            CoreError::InvalidDate(m) => AppError::BadRequest(m),
            CoreError::InvalidUuid(m) => AppError::BadRequest(m),
            CoreError::InvalidSyncUrl(m) => AppError::BadRequest(m),
            CoreError::SyncNotConfigured(m) => AppError::Conflict(m),
                CoreError::Other(m) => AppError::Internal(m),
        }
    }
}

impl vstd::std_specs::convert::FromSpecImpl<CoreError> for AppError {
    open spec fn obeys_from_spec() -> bool {
        true
    }

    open spec fn from_spec(v: CoreError) -> AppError {
        spec_classify(v)
    }
}

impl AppError {
    /// The HTTP status with which the error is answered.
    pub open spec fn spec_status(&self) -> u16 {
        match self {
            AppError::Database(_) => STATUS_INTERNAL,
            AppError::NotFound(_) => STATUS_NOT_FOUND,
            AppError::BadRequest(_) => STATUS_BAD_REQUEST,
            AppError::Unauthorized => STATUS_UNAUTHORIZED,
            AppError::Internal(_) => STATUS_INTERNAL,
            AppError::Conflict(_) => STATUS_CONFLICT,
        }
    }

    /// The text put under `"error"` in the answer.
    pub open spec fn spec_message(&self) -> Seq<char> {
        match self {
            AppError::Database(m) => m@,
            AppError::NotFound(m) => m@,
            AppError::BadRequest(m) => m@,
            AppError::Unauthorized => "Unauthorized"@,
            AppError::Internal(m) => m@,
            AppError::Conflict(m) => m@,
        }
    }

    /// The answer to a request that failed with this error.
    pub fn into_response(self) -> (r: ErrorResponse)
        ensures
            r.status == self.spec_status(),
            r.error@ == self.spec_message(),
    {
        match self {
            AppError::Database(m) => ErrorResponse { status: STATUS_INTERNAL, error: m },
            AppError::NotFound(m) => ErrorResponse { status: STATUS_NOT_FOUND, error: m },
            AppError::BadRequest(m) => ErrorResponse { status: STATUS_BAD_REQUEST, error: m },
            AppError::Unauthorized => ErrorResponse {
                status: STATUS_UNAUTHORIZED,
                error: String::from_str("Unauthorized"),
            },
            AppError::Internal(m) => ErrorResponse { status: STATUS_INTERNAL, error: m },
            AppError::Conflict(m) => ErrorResponse { status: STATUS_CONFLICT, error: m },
        }
    }
}

} // verus!

verus! {

/// The text that a failure of the task store carries.
pub open spec fn core_message(e: CoreError) -> Seq<char> {
    match e {
        CoreError::TaskNotFound(m) => m@,
        CoreError::InvalidDescription(m) => m@,
        CoreError::InvalidDate(m) => m@,
        CoreError::InvalidUuid(m) => m@,
        CoreError::InvalidSyncUrl(m) => m@,
        CoreError::SyncNotConfigured(m) => m@,
        CoreError::Other(m) => m@,
    }
}

/// Every failed request is answered with one of 400, 401, 404, 409 or 500.
pub proof fn lemma_error_status_documented(e: AppError)
    ensures
        e.spec_status() == STATUS_BAD_REQUEST || e.spec_status() == STATUS_UNAUTHORIZED
            || e.spec_status() == STATUS_NOT_FOUND || e.spec_status() == STATUS_CONFLICT
            || e.spec_status() == STATUS_INTERNAL,
{
}

/// A failure of the task store is answered with the store's own text, and
/// with 404 for an unknown task, 400 for invalid input, 409 for sync that is
/// not set up and 500 otherwise.
pub proof fn lemma_store_failure_answer(e: CoreError)
    ensures
        spec_classify(e).spec_message() == core_message(e),
        spec_classify(e).spec_status() == match e {
            CoreError::TaskNotFound(_) => STATUS_NOT_FOUND,
            CoreError::InvalidDescription(_) => STATUS_BAD_REQUEST,
            CoreError::InvalidDate(_) => STATUS_BAD_REQUEST,
            CoreError::InvalidUuid(_) => STATUS_BAD_REQUEST,
            CoreError::InvalidSyncUrl(_) => STATUS_BAD_REQUEST,
            CoreError::SyncNotConfigured(_) => STATUS_CONFLICT,
            CoreError::Other(_) => STATUS_INTERNAL,
        },
{
}

} // verus!
