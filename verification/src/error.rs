//! What a caller is told when a request fails: a broken business rule, a bad
//! input, or a failure of the store, each told apart from the others.

use vstd::prelude::*;
use vstd::std_specs::convert::FromSpecImpl;
use vstd::string::StringExecFns;

use crate::services::validation_service::{ValidationError, ValidationErrorView};
use crate::text::{contains_text, str_contains, str_eq};

verus! {

/// What a request gives: a value, or the error that a caller is told.
pub type ApiResult<T> = Result<T, ApiError>;

/// The error of a request.
#[derive(Debug, Clone)]
pub enum ApiError {
    /// The store failed.
    DatabaseError(String),
    /// What was asked for does not exist.
    NotFound(String),
    /// The input is not acceptable.
    ValidationError(String),
    /// A business rule of the validation engine forbids the request.
    BusinessValidationError(ValidationError),
    /// What was to be created exists already.
    Conflict(String),
    /// What the request refers to does not exist.
    ForeignKeyViolation(String),
    /// The program failed.
    InternalError(String),
}

/// An `ApiError` with its texts as sequences of characters.
pub enum ApiErrorView {
    DatabaseError(Seq<char>),
    NotFound(Seq<char>),
    ValidationError(Seq<char>),
    BusinessValidationError(ValidationErrorView),
    Conflict(Seq<char>),
    ForeignKeyViolation(Seq<char>),
    InternalError(Seq<char>),
}

impl View for ApiError {
    type V = ApiErrorView;

    open spec fn view(&self) -> ApiErrorView {
        match *self {
            ApiError::DatabaseError(message) => ApiErrorView::DatabaseError(message@),
            ApiError::NotFound(message) => ApiErrorView::NotFound(message@),
            ApiError::ValidationError(message) => ApiErrorView::ValidationError(message@),
            ApiError::BusinessValidationError(error) => ApiErrorView::BusinessValidationError(
                error@,
            ),
            ApiError::Conflict(message) => ApiErrorView::Conflict(message@),
            ApiError::ForeignKeyViolation(message) => ApiErrorView::ForeignKeyViolation(message@),
            ApiError::InternalError(message) => ApiErrorView::InternalError(message@),
        }
    }
}

impl ApiErrorView {
    /// The message that tells a user of the error: its kind, then its detail.
    pub open spec fn text(self) -> Seq<char> {
        match self {
            ApiErrorView::DatabaseError(message) => "Database error: "@ + message,
            ApiErrorView::NotFound(message) => "Not found: "@ + message,
            ApiErrorView::ValidationError(message) => "Validation error: "@ + message,
            ApiErrorView::BusinessValidationError(error) => "Business validation error: "@
                + error.text(),
            ApiErrorView::Conflict(message) => "Conflict: "@ + message,
            ApiErrorView::ForeignKeyViolation(message) => "Foreign key violation: "@ + message,
            ApiErrorView::InternalError(message) => "Internal error: "@ + message,
        }
    }
}

/// A failure of the store, by what the store reports of it.
#[derive(Debug, Clone, PartialEq)]
pub enum StorageFailure {
    /// A row was expected and none was found.
    RowNotFound,
    /// The database refused a statement, with its error code, if it gave one, and
    /// its message.
    Database { code: Option<String>, message: String },
    /// Any other failure, with its description.
    Other { description: String },
}

/// A `StorageFailure` with its texts as sequences of characters.
pub enum StorageFailureView {
    RowNotFound,
    Database { code: Option<Seq<char>>, message: Seq<char> },
    Other { description: Seq<char> },
}

impl View for StorageFailure {
    type V = StorageFailureView;

    open spec fn view(&self) -> StorageFailureView {
        match *self {
            StorageFailure::RowNotFound => StorageFailureView::RowNotFound,
            StorageFailure::Database { code, message } => StorageFailureView::Database {
                code: code.deep_view(),
                message: message@,
            },
            StorageFailure::Other { description } => StorageFailureView::Other {
                description: description@,
            },
        }
    }
}

/// What a failure of the store says of its cause: all of it but the description of
/// a failure that is neither a missing row nor a refusal by the database. Such a
/// description may read otherwise on another machine; the rest reads the same
/// wherever the failure occurs.
pub enum StorageCause {
    RowNotFound,
    Database { code: Option<Seq<char>>, message: Seq<char> },
    Other,
}

impl StorageFailureView {
    /// The cause of the failure.
    pub open spec fn cause(self) -> StorageCause {
        match self {
            StorageFailureView::RowNotFound => StorageCause::RowNotFound,
            StorageFailureView::Database { code, message } => StorageCause::Database {
                code,
                message,
            },
            StorageFailureView::Other { .. } => StorageCause::Other,
        }
    }
}

/// The cause of a refusal by the database.
pub enum ConstraintKind {
    /// A value that must be unique exists already.
    Unique,
    /// A row that is referred to does not exist.
    ForeignKey,
    /// Anything else.
    Unclassified,
}

/// The error codes with which SQLite reports a value that exists already.
pub open spec fn is_unique_code(code: Seq<char>) -> bool {
    code == "1555"@ || code == "2067"@
}

/// The error codes with which SQLite reports a reference to a missing row.
pub open spec fn is_foreign_key_code(code: Seq<char>) -> bool {
    code == "787"@ || code == "1811"@
}

/// The cause of a refusal: by its error code where the code tells, and by its
/// message where not.
pub open spec fn constraint_kind(code: Option<Seq<char>>, message: Seq<char>) -> ConstraintKind {
    if code matches Some(c) && is_unique_code(c) {
        ConstraintKind::Unique
    } else if code matches Some(c) && is_foreign_key_code(c) {
        ConstraintKind::ForeignKey
    } else if contains_text(message, "UNIQUE constraint"@) {
        ConstraintKind::Unique
    } else if contains_text(message, "FOREIGN KEY constraint"@) {
        ConstraintKind::ForeignKey
    } else {
        ConstraintKind::Unclassified
    }
}

/// The error that a caller is told for a failure of the store.
pub open spec fn storage_error(failure: StorageFailureView) -> ApiErrorView {
    match failure {
        StorageFailureView::RowNotFound => ApiErrorView::NotFound("Resource not found"@),
        StorageFailureView::Database { code, message } => match constraint_kind(code, message) {
            ConstraintKind::Unique => ApiErrorView::Conflict(
                "Resource already exists: "@ + message,
            ),
            ConstraintKind::ForeignKey => ApiErrorView::ForeignKeyViolation(
                "Referenced resource not found: "@ + message,
            ),
            ConstraintKind::Unclassified => ApiErrorView::DatabaseError(message),
        },
        StorageFailureView::Other { description } => ApiErrorView::DatabaseError(description),
    }
}

/// The errors that failures of the store come to: what `storage_error` gives for some
/// failure.
pub open spec fn is_storage_error(error: ApiErrorView) -> bool {
    exists|failure: StorageFailureView| error == #[trigger] storage_error(failure)
}

/// `text` begins with the characters of `start`.
pub open spec fn begins_with(text: Seq<char>, start: Seq<char>) -> bool {
    start.len() <= text.len() && text.subrange(0, start.len() as int) == start
}

/// What the errors of failures of the store look like: a missing row is not found,
/// under one fixed message; a conflict and a foreign key violation begin with the
/// words of their kind, before the database's message; any other is a database
/// error. None is an error of a business rule, of an input or of the program.
pub proof fn lemma_storage_errors(error: ApiErrorView)
    requires
        is_storage_error(error),
    ensures
        match error {
            ApiErrorView::NotFound(message) => message == "Resource not found"@,
            ApiErrorView::Conflict(message) => begins_with(message, "Resource already exists: "@),
            ApiErrorView::ForeignKeyViolation(message) => begins_with(
                message,
                "Referenced resource not found: "@,
            ),
            ApiErrorView::DatabaseError(_) => true,
            _ => false,
        },
{
    let failure = choose|failure: StorageFailureView| error == #[trigger] storage_error(failure);
    if let StorageFailureView::Database { code, message } = failure {
        let unique = "Resource already exists: "@;
        let foreign = "Referenced resource not found: "@;
        assert((unique + message).subrange(0, unique.len() as int) =~= unique);
        assert((foreign + message).subrange(0, foreign.len() as int) =~= foreign);
    }
}

/// `sqlx::Error`, the failure that `sqlx` reports. It is carried as it is: nothing of
/// what it holds is visible to the rules.
#[verifier::external_type_specification]
#[verifier::external_body]
pub struct ExSqlxError(sqlx::Error);

/// The cause that an `sqlx::Error` stands for: `RowNotFound` for the variant of that
/// name; for the variant `Database`, the code and the message that
/// `sqlx::error::DatabaseError::code` and `sqlx::error::DatabaseError::message` give
/// of what it holds; `Other` for every other variant.
pub uninterp spec fn sqlx_cause(error: sqlx::Error) -> StorageCause;

/// Tells the variants of `sqlx::Error` apart and takes out of each what
/// `ApiError::from_storage_failure` reads: of `Database`, what
/// `sqlx::error::DatabaseError::code` and `message` give; of any other but
/// `RowNotFound`, the error's own description. Claimed: the failure has the cause
/// that the error stands for. Nothing is claimed of the description.
#[verifier::external_body]
fn storage_failure_of(error: sqlx::Error) -> (failure: StorageFailure)
    ensures
        failure@.cause() == sqlx_cause(error),
{
    match error {
        sqlx::Error::RowNotFound => StorageFailure::RowNotFound,
        sqlx::Error::Database(refusal) => StorageFailure::Database {
            code: match refusal.code() {
                Some(code) => Some(code.into_owned()),
                None => None,
            },
            message: refusal.message().to_owned(),
        },
        other => StorageFailure::Other { description: other.to_string() },
    }
}

fn prefixed(prefix: &str, detail: &str) -> (message: String)
    ensures
        message@ == prefix@ + detail@,
{
    let mut message = String::from_str(prefix);
    message.append(detail);
    message
}

impl ApiError {
    /// The message that tells a user of the error.
    pub fn to_string(&self) -> (message: String)
        ensures
            message@ == self@.text(),
    {
        match self {
            ApiError::DatabaseError(detail) => prefixed("Database error: ", detail.as_str()),
            ApiError::NotFound(detail) => prefixed("Not found: ", detail.as_str()),
            ApiError::ValidationError(detail) => prefixed("Validation error: ", detail.as_str()),
            ApiError::BusinessValidationError(error) => {
                let detail = error.to_string();
                prefixed("Business validation error: ", detail.as_str())
            },
            ApiError::Conflict(detail) => prefixed("Conflict: ", detail.as_str()),
            ApiError::ForeignKeyViolation(detail) => prefixed(
                "Foreign key violation: ",
                detail.as_str(),
            ),
            ApiError::InternalError(detail) => prefixed("Internal error: ", detail.as_str()),
        }
    }

    /// The error for a failure of the store: a missing row is not found, a value
    /// that exists already is a conflict, a reference to a missing row is a foreign
    /// key violation, and anything else is a database error.
    pub fn from_storage_failure(failure: StorageFailure) -> (error: ApiError)
        ensures
            error@ == storage_error(failure@),
    {
        match failure {
            StorageFailure::RowNotFound => ApiError::NotFound(
                String::from_str("Resource not found"),
            ),
            StorageFailure::Database { code, message } => {
                let by_code: u8 = match &code {
                    Some(c) => {
                        if str_eq(c.as_str(), "1555") || str_eq(c.as_str(), "2067") {
                            1
                        } else if str_eq(c.as_str(), "787") || str_eq(c.as_str(), "1811") {
                            2
                        } else {
                            0
                        }
                    },
                    None => 0,
                };
                if by_code == 1 || (by_code == 0 && str_contains(
                    message.as_str(),
                    "UNIQUE constraint",
                )) {
                    ApiError::Conflict(prefixed("Resource already exists: ", message.as_str()))
                } else if by_code == 2 || str_contains(message.as_str(), "FOREIGN KEY constraint") {
                    ApiError::ForeignKeyViolation(
                        prefixed("Referenced resource not found: ", message.as_str()),
                    )
                } else {
                    ApiError::DatabaseError(message)
                }
            },
            StorageFailure::Other { description } => ApiError::DatabaseError(description),
        }
    }

    /// The error for a failure that `sqlx` reports, by the cause that the failure
    /// stands for: a missing row is not found; a refusal by the database is
    /// classified by its code and its message, as `from_storage_failure` does; any
    /// other failure is a database error under the failure's own description.
    pub fn from_sqlx(error: sqlx::Error) -> (r: ApiError)
        ensures
            match sqlx_cause(error) {
                StorageCause::RowNotFound => r@ == storage_error(StorageFailureView::RowNotFound),
                StorageCause::Database { code, message } => r@ == storage_error(
                    StorageFailureView::Database { code, message },
                ),
                StorageCause::Other => r@ is DatabaseError,
            },
            is_storage_error(r@),
    {
        let failure = storage_failure_of(error);
        let ghost cause = failure@;
        let r = ApiError::from_storage_failure(failure);
        assert(r@ == storage_error(cause));
        r
    }
}

impl From<ValidationError> for ApiError {
    fn from(err: ValidationError) -> (r: ApiError) {
        ApiError::BusinessValidationError(err)
    }
}

impl FromSpecImpl<ValidationError> for ApiError {
    open spec fn obeys_from_spec() -> bool {
        true
    }

    open spec fn from_spec(err: ValidationError) -> ApiError {
        ApiError::BusinessValidationError(err)
    }
}

} // verus!
