//! The service errors and the JSON error bodies they are answered with.
use vstd::prelude::*;
use vstd::string::*;
use http::StatusCode;
use crate::models::validation::ValidationErrors;

verus! {

/// The canonical reason phrase of an HTTP status code, as the `http` crate's
/// table gives it.
pub uninterp spec fn canonical_reason_of(status: u16) -> Option<Seq<char>>;

/// `StatusCode::from_u16` then `StatusCode::canonical_reason`: the reason
/// phrase the `http` crate lists for the code; a number outside 100..=999 is
/// no status code and has none. Of the table, the phrases of the codes this
/// library answers with by name are stated.
#[verifier::external_body]
fn canonical_reason(status: u16) -> (res: Option<&'static str>)
    ensures
        match res {
            Some(r) => canonical_reason_of(status) == Some(r@),
            None => canonical_reason_of(status) == None::<Seq<char>>,
        },
        !(100 <= status <= 999) ==> res is None,
        status == 400 ==> (res.is_some() && res.unwrap()@ == "Bad Request"@),
        status == 404 ==> (res.is_some() && res.unwrap()@ == "Not Found"@),
        status == 500 ==> (res.is_some() && res.unwrap()@ == "Internal Server Error"@),
        status == 502 ==> (res.is_some() && res.unwrap()@ == "Bad Gateway"@),
        status == 503 ==> (res.is_some() && res.unwrap()@ == "Service Unavailable"@),
        status == 504 ==> (res.is_some() && res.unwrap()@ == "Gateway Timeout"@),
{
    match StatusCode::from_u16(status) {
        Ok(code) => code.canonical_reason(),
        Err(_) => None,
    }
}

/// The reason phrase shown for a status: the canonical one, or "Error".
pub open spec fn reason_or_error(status: u16) -> Seq<char> {
    match canonical_reason_of(status) {
        Some(r) => r,
        None => "Error"@,
    }
}

fn reason_text(status: u16) -> (res: String)
    ensures
        res@ == reason_or_error(status),
        status == 400 ==> res@ == "Bad Request"@,
        status == 404 ==> res@ == "Not Found"@,
        status == 500 ==> res@ == "Internal Server Error"@,
        status == 502 ==> res@ == "Bad Gateway"@,
        status == 503 ==> res@ == "Service Unavailable"@,
        status == 504 ==> res@ == "Gateway Timeout"@,
{
    match canonical_reason(status) {
        Some(r) => String::from_str(r),
        None => String::from_str("Error"),
    }
}

/// The failures of the relational database driver that the error mapping
/// tells apart.
#[derive(Debug, Clone, PartialEq, Eq)]
pub enum SqlxError {
    RowNotFound,
    Configuration,
    Database,
    Io,
    Tls,
    Protocol,
    TypeNotFound { name: String },
    ColumnIndexOutOfBounds { index: usize, len: usize },
    ColumnNotFound(String),
    Decode,
    Encode,
    AnyDriverError,
    PoolTimedOut,
    PoolClosed,
    WorkerCrashed,
    Migrate,
    Other,
}

/// Status, message and error code answered for each database failure.
pub open spec fn sqlx_response(e: SqlxError) -> (u16, Seq<char>, i32) {
    match e {
        SqlxError::RowNotFound => (404, "Requested resource was not found."@, 4),
        SqlxError::Configuration => (500, "Database configuration error."@, 13),
        SqlxError::Database => (502, "A database error occurred."@, 14),
        SqlxError::Io => (500, "Database I/O error."@, 15),
        SqlxError::Tls => (500, "Database TLS error."@, 16),
        SqlxError::Protocol => (502, "Database protocol error."@, 17),
        SqlxError::TypeNotFound { .. } => (500, "Database type not found."@, 19),
        SqlxError::ColumnIndexOutOfBounds { .. } => (400, "Column index out of bounds."@, 20),
        SqlxError::ColumnNotFound(column) => (
            400,
            "Column '"@ + column@ + "' not found in the result set."@,
            21,
        ),
        SqlxError::Decode => (400, "Failed to decode database response."@, 22),
        SqlxError::Encode => (400, "Failed to encode database request."@, 23),
        SqlxError::AnyDriverError => (500, "A database driver error occurred."@, 24),
        SqlxError::PoolTimedOut => (503, "Database connection pool timed out."@, 25),
        SqlxError::PoolClosed => (500, "Database connection pool closed."@, 26),
        SqlxError::WorkerCrashed => (500, "Database connection pool worker crashed."@, 27),
        SqlxError::Migrate => (500, "Database migration error."@, 28),
        SqlxError::Other => (500, "A database error occurred."@, 29),
    }
}

/// Extra information carried by an error body; `Null` when there is none.
#[derive(Debug, Clone)]
pub enum ErrorDetails {
    Null,
    Validation(ValidationErrors),
}

/// Status, message, details and error code of a database failure.
pub fn map_sqlx_error(error: &SqlxError) -> (res: (u16, String, Option<ErrorDetails>, i32))
    ensures
        res.0 == sqlx_response(*error).0,
        res.1@ == sqlx_response(*error).1,
        res.2 is None,
        res.3 == sqlx_response(*error).2,
{
    match error {
        SqlxError::RowNotFound => (404, String::from_str("Requested resource was not found."), None, 4),
        SqlxError::Configuration => (500, String::from_str("Database configuration error."), None, 13),
        SqlxError::Database => (502, String::from_str("A database error occurred."), None, 14),
        SqlxError::Io => (500, String::from_str("Database I/O error."), None, 15),
        SqlxError::Tls => (500, String::from_str("Database TLS error."), None, 16),
        SqlxError::Protocol => (502, String::from_str("Database protocol error."), None, 17),
        SqlxError::TypeNotFound { .. } => (500, String::from_str("Database type not found."), None, 19),
        SqlxError::ColumnIndexOutOfBounds { .. } => (
            400,
            String::from_str("Column index out of bounds."),
            None,
            20,
        ),
        SqlxError::ColumnNotFound(column) => {
            let mut message = String::from_str("Column '");
            message.append(column.as_str());
            message.append("' not found in the result set.");
            (400, message, None, 21)
        },
        SqlxError::Decode => (400, String::from_str("Failed to decode database response."), None, 22),
        SqlxError::Encode => (400, String::from_str("Failed to encode database request."), None, 23),
        SqlxError::AnyDriverError => (
            500,
            String::from_str("A database driver error occurred."),
            None,
            24,
        ),
        SqlxError::PoolTimedOut => (
            503,
            String::from_str("Database connection pool timed out."),
            None,
            25,
        ),
        SqlxError::PoolClosed => (500, String::from_str("Database connection pool closed."), None, 26),
        SqlxError::WorkerCrashed => (
            500,
            String::from_str("Database connection pool worker crashed."),
            None,
            27,
        ),
        SqlxError::Migrate => (500, String::from_str("Database migration error."), None, 28),
        SqlxError::Other => (500, String::from_str("A database error occurred."), None, 29),
    }
}


/// The errors a service handler can end in. Failures of outside services
/// carry the text those services reported; a rejected JSON body carries the
/// status and text of the rejection.
#[derive(Debug, Clone)]
pub enum AppError {
    SerdeJson(String),
    RedisPool(String),
    Influx(String),
    RequestError(String),
    Mongo(String),
    Redis(String),
    R2d2(String),
    Postgres(SqlxError),
    Migration(String),
    Io(String),
    JsonExtractorRejection { status: u16, body: String },
    ValidationError(ValidationErrors),
    UuidError(String),
    NotFound(String),
    GatewayTimeout,
    DatabaseError(String),
    InternalError,
    AnyhowError(String),
}

/// Status, message and error code answered for each error, and whether the
/// validation failures go along as details.
pub open spec fn app_error_response(e: AppError) -> (u16, Seq<char>, i32) {
    match e {
        AppError::SerdeJson(m) => (500, m@, 211),
        AppError::R2d2(m) => (500, m@, 251),
        AppError::RedisPool(m) => (500, m@, 111),
        AppError::RequestError(m) => (502, m@, 121),
        AppError::GatewayTimeout => (504, ""@, 921),
        AppError::Influx(m) => (502, m@, 1),
        AppError::Mongo(m) => (502, m@, 2),
        AppError::Redis(m) => (502, m@, 3),
        AppError::Postgres(db) => sqlx_response(db),
        AppError::Migration(m) => (500, m@, 5),
        AppError::Io(m) => (500, m@, 6),
        AppError::JsonExtractorRejection { status, body } => (status, body@, 7),
        AppError::ValidationError(_) => (400, "Validation failed for the provided input."@, 8),
        AppError::UuidError(_) => (400, "Invalid id"@, 9),
        AppError::NotFound(m) => (404, m@, 10),
        AppError::DatabaseError(m) => (500, m@, 11),
        AppError::InternalError => (500, "An unexpected error occurred."@, 12),
        AppError::AnyhowError(m) => (500, m@, 99),
    }
}

/// Where a database failure is laid: a missing row is not found (404); a
/// failure of the request's shape (a column out of range or unknown, a value
/// that does not decode or encode) is the caller's (400); an error the
/// database reported or a protocol error is a bad gateway (502); a pool that
/// timed out is unavailable (503); anything else is internal (500). Only the
/// unknown column is named in the message.
pub proof fn lemma_database_failure_statuses(e: SqlxError)
    ensures
        sqlx_response(e).0 == (match e {
            SqlxError::RowNotFound => 404u16,
            SqlxError::ColumnIndexOutOfBounds { .. } | SqlxError::ColumnNotFound(_)
            | SqlxError::Decode | SqlxError::Encode => 400u16,
            SqlxError::Database | SqlxError::Protocol => 502u16,
            SqlxError::PoolTimedOut => 503u16,
            _ => 500u16,
        }),
        e matches SqlxError::ColumnNotFound(c) ==> sqlx_response(e).1 == "Column '"@ + c@
            + "' not found in the result set."@,
{
}

/// Where a service error is laid: the caller's mistakes (a body that breaks
/// the rules, an id that is no UUID) answer 400, a missing item 404, a
/// failing outside service 502, a wait that timed out 504, and a rejected
/// JSON body its own status; database failures as above; the rest 500.
pub proof fn lemma_service_error_statuses(e: AppError)
    ensures
        app_error_response(e).0 == (match e {
            AppError::ValidationError(_) | AppError::UuidError(_) => 400u16,
            AppError::NotFound(_) => 404u16,
            AppError::RequestError(_) | AppError::Influx(_) | AppError::Mongo(_)
            | AppError::Redis(_) => 502u16,
            AppError::GatewayTimeout => 504u16,
            AppError::JsonExtractorRejection { status, .. } => status,
            AppError::Postgres(db) => sqlx_response(db).0,
            _ => 500u16,
        }),
{
}

/// The JSON body of an error answer.
#[derive(Debug, Clone)]
pub struct ApiErrorMessage {
    /// HTTP status code
    pub status: u16,
    /// Short error type or title
    pub error: String,
    /// Detailed human-readable message
    pub message: String,
    /// Optional field for additional info
    pub details: Option<ErrorDetails>,
    /// Custom error code
    pub code: Option<i32>,
}

impl ApiErrorMessage {
    pub fn new(
        status: u16,
        error: String,
        message: String,
        details: Option<ErrorDetails>,
        code: Option<i32>,
    ) -> (res: Self)
        ensures
            res.status == status,
            res.error@ == error@,
            res.message@ == message@,
            res.details == details,
            res.code == code,
    {
        ApiErrorMessage { status, error, message, details, code }
    }

    /// A body for `status` titled with its reason phrase, without details or code.
    pub fn from_status(status: u16, message: String) -> (res: Self)
        ensures
            res.status == status,
            res.error@ == reason_or_error(status),
            res.message@ == message@,
            res.details is None,
            res.code is None,
            status == 400 ==> res.error@ == "Bad Request"@,
            status == 404 ==> res.error@ == "Not Found"@,
            status == 500 ==> res.error@ == "Internal Server Error"@,
            status == 502 ==> res.error@ == "Bad Gateway"@,
            status == 503 ==> res.error@ == "Service Unavailable"@,
            status == 504 ==> res.error@ == "Gateway Timeout"@,
    {
        Self::new(status, reason_text(status), message, None, None)
    }

    /// A 404 body: the body `from_status` gives for 404, titled "Not Found".
    pub fn not_found(message: String) -> (res: Self)
        ensures
            res.status == 404,
            res.error@ == "Not Found"@,
            res.error@ == reason_or_error(404),
            res.message@ == message@,
            res.details is None,
            res.code is None,
    {
        Self::from_status(404, message)
    }

    /// A 400 body: the body `from_status` gives for 400, titled "Bad Request".
    pub fn bad_request(message: String) -> (res: Self)
        ensures
            res.status == 400,
            res.error@ == "Bad Request"@,
            res.error@ == reason_or_error(400),
            res.message@ == message@,
            res.details is None,
            res.code is None,
    {
        Self::from_status(400, message)
    }
}

/// The answer of a handler: the data, or an error body.
pub enum ApiResponse<T> {
    Data { data: T },
    Error { error: ApiErrorMessage },
}

impl AppError {
    /// The status and body that answer the error: the error's status, code
    /// and message, titled with the status's reason phrase; the details are
    /// the validation failures for a validation error and null otherwise.
    pub fn into_response(self) -> (res: (u16, ApiErrorMessage))
        ensures
            res.0 == app_error_response(self).0,
            res.1.status == app_error_response(self).0,
            res.1.error@ == reason_or_error(app_error_response(self).0),
            res.1.message@ == app_error_response(self).1,
            res.1.code == Some(app_error_response(self).2),
            res.1.details == Some(
                match self {
                    AppError::ValidationError(v) => ErrorDetails::Validation(v),
                    _ => ErrorDetails::Null,
                },
            ),
    {
        let (status, message, details, code): (u16, String, Option<ErrorDetails>, i32) = match self {
            AppError::SerdeJson(m) => (500, m, None, 211),
            AppError::R2d2(m) => (500, m, None, 251),
            AppError::RedisPool(m) => (500, m, None, 111),
            AppError::RequestError(m) => (502, m, None, 121),
            AppError::GatewayTimeout => (504, String::from_str(""), None, 921),
            AppError::Influx(m) => (502, m, None, 1),
            AppError::Mongo(m) => (502, m, None, 2),
            AppError::Redis(m) => (502, m, None, 3),
            AppError::Postgres(db) => map_sqlx_error(&db),
            AppError::Migration(m) => (500, m, None, 5),
            AppError::Io(m) => (500, m, None, 6),
            AppError::JsonExtractorRejection { status, body } => (status, body, None, 7),
            AppError::ValidationError(v) => (
                400,
                String::from_str("Validation failed for the provided input."),
                Some(ErrorDetails::Validation(v)),
                8,
            ),
            AppError::UuidError(_) => (400, String::from_str("Invalid id"), None, 9),
            AppError::NotFound(m) => (404, m, None, 10),
            AppError::DatabaseError(m) => (500, m, None, 11),
            AppError::InternalError => (
                500,
                String::from_str("An unexpected error occurred."),
                None,
                12,
            ),
            AppError::AnyhowError(m) => (500, m, None, 99),
        };
        let shown = match details {
            Some(d) => d,
            None => ErrorDetails::Null,
        };
        let body = ApiErrorMessage::new(status, reason_text(status), message, Some(shown), Some(code));
        (status, body)
    }
}

/// The answer the task update endpoints document for an update that ends in
/// `e` on the task with path id `id`, without error codes: a body that
/// breaks the rules is a 400 "Validation Error" carrying the failures, a
/// missing task a 404 naming the id, a malformed id a 400 "Invalid id", and
/// anything else a 500 with the generic message.
pub fn update_task_error_response(e: AppError, id: &str) -> (res: (u16, ApiErrorMessage))
    ensures
        res.0 == res.1.status,
        res.1.code is None,
        match e {
            AppError::ValidationError(v) => res.0 == 400 && res.1.error@ == "Validation Error"@
                && res.1.message@ == "Validation failed for the provided input."@
                && res.1.details == Some(ErrorDetails::Validation(v)),
            AppError::Postgres(SqlxError::RowNotFound) => res.0 == 404 && res.1.error@
                == "Not Found"@ && res.1.message@ == "Task with ID "@ + id@ + " not found"@
                && res.1.details == Some(ErrorDetails::Null),
            AppError::UuidError(_) => res.0 == 400 && res.1.error@ == "Bad Request"@
                && res.1.message@ == "Invalid id"@ && res.1.details == Some(ErrorDetails::Null),
            _ => res.0 == 500 && res.1.error@ == "Internal Server Error"@ && res.1.message@
                == "An unexpected error occurred."@ && res.1.details == Some(ErrorDetails::Null),
        },
{
    let (status, error, message, details): (u16, String, String, ErrorDetails) = match e {
        AppError::ValidationError(v) => (
            400,
            String::from_str("Validation Error"),
            String::from_str("Validation failed for the provided input."),
            ErrorDetails::Validation(v),
        ),
        AppError::Postgres(SqlxError::RowNotFound) => {
            let mut m = String::from_str("Task with ID ");
            m.append(id);
            m.append(" not found");
            (404, reason_text(404), m, ErrorDetails::Null)
        },
        AppError::UuidError(_) => (
            400,
            reason_text(400),
            String::from_str("Invalid id"),
            ErrorDetails::Null,
        ),
        _ => (
            500,
            reason_text(500),
            String::from_str("An unexpected error occurred."),
            ErrorDetails::Null,
        ),
    };
    (status, ApiErrorMessage::new(status, error, message, Some(details), None))
}

/// The answer to a request for an unknown route.
pub fn not_found() -> (res: (u16, &'static str))
    ensures
        res.0 == 404,
        res.1@ == "404 Not Found"@,
{
    (404, "404 Not Found")
}

/// The answer of the health check.
pub fn health_check() -> (res: (u16, &'static str))
    ensures
        res.0 == 200,
        res.1@ == "healthy"@,
{
    (200, "healthy")
}

/// A 500 answer carrying the text of an error.
pub fn internal_error(message: String) -> (res: (u16, String))
    ensures
        res.0 == 500,
        res.1@ == message@,
{
    (500, message)
}

} // verus!
