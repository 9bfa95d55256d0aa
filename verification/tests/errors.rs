use playground::errors::{
    health_check, internal_error, map_sqlx_error, not_found, ApiErrorMessage, ApiResponse, AppError,
    ErrorDetails, SqlxError,
};
use playground::models::validation::{Field, FieldError, Rule, ValidationErrors};

#[test]
fn sqlx_errors_map_to_status_message_and_code() {
    let cases: Vec<(SqlxError, u16, &str, i32)> = vec![
        (SqlxError::RowNotFound, 404, "Requested resource was not found.", 4),
        (SqlxError::Configuration, 500, "Database configuration error.", 13),
        (SqlxError::Database, 502, "A database error occurred.", 14),
        (SqlxError::Io, 500, "Database I/O error.", 15),
        (SqlxError::Tls, 500, "Database TLS error.", 16),
        (SqlxError::Protocol, 502, "Database protocol error.", 17),
        (SqlxError::TypeNotFound { name: "citext".to_string() }, 500, "Database type not found.", 19),
        (SqlxError::ColumnIndexOutOfBounds { index: 3, len: 2 }, 400, "Column index out of bounds.", 20),
        (SqlxError::Decode, 400, "Failed to decode database response.", 22),
        (SqlxError::Encode, 400, "Failed to encode database request.", 23),
        (SqlxError::AnyDriverError, 500, "A database driver error occurred.", 24),
        (SqlxError::PoolTimedOut, 503, "Database connection pool timed out.", 25),
        (SqlxError::PoolClosed, 500, "Database connection pool closed.", 26),
        (SqlxError::WorkerCrashed, 500, "Database connection pool worker crashed.", 27),
        (SqlxError::Migrate, 500, "Database migration error.", 28),
        (SqlxError::Other, 500, "A database error occurred.", 29),
    ];
    for (e, status, message, code) in cases {
        let (s, m, d, c) = map_sqlx_error(&e);
        assert_eq!((s, m.as_str(), c), (status, message, code));
        assert!(d.is_none());
    }
    let (s, m, _, c) = map_sqlx_error(&SqlxError::ColumnNotFound("age".to_string()));
    assert_eq!((s, m.as_str(), c), (400, "Column 'age' not found in the result set.", 21));
}

#[test]
fn app_errors_answer_with_their_status_and_code() {
    let (status, body) = AppError::NotFound("Task 7".to_string()).into_response();
    assert_eq!(status, 404);
    assert_eq!(body.status, 404);
    assert_eq!(body.error, "Not Found");
    assert_eq!(body.message, "Task 7");
    assert_eq!(body.code, Some(10));
    assert!(matches!(body.details, Some(ErrorDetails::Null)));

    let (status, body) = AppError::GatewayTimeout.into_response();
    assert_eq!((status, body.error.as_str(), body.message.as_str(), body.code), (504, "Gateway Timeout", "", Some(921)));

    let (status, body) = AppError::InternalError.into_response();
    assert_eq!(
        (status, body.error.as_str(), body.message.as_str(), body.code),
        (500, "Internal Server Error", "An unexpected error occurred.", Some(12))
    );

    let (status, body) = AppError::UuidError("bad".to_string()).into_response();
    assert_eq!((status, body.error.as_str(), body.message.as_str(), body.code), (400, "Bad Request", "Invalid id", Some(9)));

    let (status, body) = AppError::Postgres(SqlxError::PoolTimedOut).into_response();
    assert_eq!(
        (status, body.error.as_str(), body.message.as_str(), body.code),
        (503, "Service Unavailable", "Database connection pool timed out.", Some(25))
    );

    let (status, body) = AppError::Redis("down".to_string()).into_response();
    assert_eq!((status, body.error.as_str(), body.message.as_str(), body.code), (502, "Bad Gateway", "down", Some(3)));
}

#[test]
fn every_app_error_code() {
    let m = || "m".to_string();
    let cases: Vec<(AppError, u16, i32)> = vec![
        (AppError::SerdeJson(m()), 500, 211),
        (AppError::RedisPool(m()), 500, 111),
        (AppError::Influx(m()), 502, 1),
        (AppError::RequestError(m()), 502, 121),
        (AppError::Mongo(m()), 502, 2),
        (AppError::Redis(m()), 502, 3),
        (AppError::R2d2(m()), 500, 251),
        (AppError::Postgres(SqlxError::RowNotFound), 404, 4),
        (AppError::Migration(m()), 500, 5),
        (AppError::Io(m()), 500, 6),
        (AppError::JsonExtractorRejection { status: 415, body: m() }, 415, 7),
        (AppError::UuidError(m()), 400, 9),
        (AppError::NotFound(m()), 404, 10),
        (AppError::GatewayTimeout, 504, 921),
        (AppError::DatabaseError(m()), 500, 11),
        (AppError::InternalError, 500, 12),
        (AppError::AnyhowError(m()), 500, 99),
    ];
    for (e, status, code) in cases {
        let (s, body) = e.into_response();
        assert_eq!((s, body.status, body.code), (status, status, Some(code)));
    }
}

#[test]
fn validation_errors_carry_their_details() {
    let v = ValidationErrors {
        errors: vec![FieldError { field: Field::Title, rule: Rule::Length { min: 2 } }],
    };
    let (status, body) = AppError::ValidationError(v).into_response();
    assert_eq!(status, 400);
    assert_eq!(body.message, "Validation failed for the provided input.");
    assert_eq!(body.code, Some(8));
    match body.details {
        Some(ErrorDetails::Validation(d)) => assert_eq!(d.errors.len(), 1),
        _ => panic!("validation details expected"),
    }
}

#[test]
fn error_message_constructors() {
    let b = ApiErrorMessage::not_found("Task not found".to_string());
    assert_eq!((b.status, b.error.as_str(), b.message.as_str()), (404, "Not Found", "Task not found"));
    assert!(b.details.is_none() && b.code.is_none());
    let b = ApiErrorMessage::bad_request("nope".to_string());
    assert_eq!((b.status, b.error.as_str(), b.message.as_str()), (400, "Bad Request", "nope"));
    let b = ApiErrorMessage::from_status(418, "teapot".to_string());
    assert_eq!((b.status, b.error.as_str(), b.message.as_str()), (418, "I'm a teapot", "teapot"));
    let b = ApiErrorMessage::from_status(299, "odd".to_string());
    assert_eq!(b.error, "Error");
    let b = ApiErrorMessage::new(201, "Created".to_string(), "ok".to_string(), None, Some(5));
    assert_eq!((b.status, b.error.as_str(), b.message.as_str(), b.code), (201, "Created", "ok", Some(5)));
    let r: ApiResponse<u32> = ApiResponse::Error { error: b };
    assert!(matches!(r, ApiResponse::Error { .. }));
    let r: ApiResponse<u32> = ApiResponse::Data { data: 3 };
    assert!(matches!(r, ApiResponse::Data { data: 3 }));
}

#[test]
fn plain_handlers() {
    assert_eq!(not_found(), (404, "404 Not Found"));
    assert_eq!(health_check(), (200, "healthy"));
    assert_eq!(internal_error("boom".to_string()), (500, "boom".to_string()));
}
