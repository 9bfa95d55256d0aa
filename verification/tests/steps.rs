use playground::errors::{update_task_error_response, ApiErrorMessage, AppError, ErrorDetails, SqlxError};
use playground::messaging::{process_message, MessagePlan};
use playground::messaging::{
    consumer_name, drop_reply, drop_request, entry_follow_ups, read_group_args,
    subscriber_step, task_reply, task_request, Reply, SubscriberStep, TaskCall, REPLY_WAIT_SECONDS,
};
use playground::models::task::{CreateTask, Task};
use playground::models::validation::{Field, FieldError, Rule, ValidationErrors};
use playground::streams::ReadDto;

const ID: &str = "550e8400-e29b-41d4-a716-446655440000";

fn task() -> Task {
    Task { id: 7, title: "walk".to_string(), description: None, completed: false }
}

fn shown(r: Result<(u16, Option<Task>), AppError>) -> Option<(u16, Option<(u128, String)>)> {
    r.ok().map(|(status, t)| (status, t.map(|t| (t.id, t.title))))
}

fn new_task(title: &str, description: &str) -> CreateTask {
    CreateTask { title: title.to_string(), description: description.to_string(), completed: false }
}

fn fields(req: &playground::messaging::StreamRequest) -> Vec<(&str, &str)> {
    req.fields.iter().map(|(k, v)| (*k, v.as_str())).collect()
}

#[test]
fn a_read_with_a_uuid_is_sent_and_waited_for() {
    let call = TaskCall::Get { id: ID.to_string() };
    let x = task_request(&call, "{\"id\":\"x\"}".to_string(), "r-1".to_string()).ok().unwrap();
    assert_eq!(x.wait_seconds, 30);
    assert_eq!(REPLY_WAIT_SECONDS, 30);
    assert_eq!(x.request.stream, "tasks_stream");
    assert_eq!(
        fields(&x.request),
        vec![("payload", "{\"id\":\"x\"}"), ("request_id", "r-1"), ("action", "read")]
    );
    assert_eq!(x.request.response_key, "response:r-1");
}

#[test]
fn a_read_with_a_malformed_id_is_refused_before_sending() {
    let call = TaskCall::Get { id: "12".to_string() };
    match task_request(&call, String::new(), "r".to_string()) {
        Err(AppError::UuidError(m)) => assert!(!m.is_empty()),
        _ => panic!("expected a UUID error"),
    }
}

#[test]
fn a_creation_that_breaks_the_rules_is_refused_before_sending() {
    let call = TaskCall::Create { body: new_task("a", "long enough") };
    match task_request(&call, String::new(), "r".to_string()) {
        Err(AppError::ValidationError(v)) => assert_eq!(
            v.errors,
            vec![FieldError { field: Field::Title, rule: Rule::Length { min: 2 } }]
        ),
        _ => panic!("expected a validation error"),
    }
    let call = TaskCall::Create { body: new_task("ab", "long enough") };
    let x = task_request(&call, "{}".to_string(), "r-2".to_string()).ok().unwrap();
    assert_eq!(fields(&x.request)[2], ("action", "create"));
}

#[test]
fn a_delete_is_sent_whatever_its_id() {
    let call = TaskCall::Delete { id: "not-an-id".to_string() };
    let x = task_request(&call, "{\"id\":\"not-an-id\"}".to_string(), "r-3".to_string()).ok().unwrap();
    assert_eq!(fields(&x.request)[2], ("action", "delete"));
    assert_eq!(x.wait_seconds, 30);
}

#[test]
fn replies_to_a_read() {
    let call = TaskCall::Get { id: ID.to_string() };
    assert_eq!(shown(task_reply(&call, Reply::Parsed(task()))), Some((200, Some((7, "walk".to_string())))));
    match task_reply(&call, Reply::Unreadable("eof".to_string())) {
        Err(AppError::NotFound(m)) => assert_eq!(m, "No found"),
        _ => panic!(),
    }
    assert!(matches!(task_reply(&call, Reply::TimedOut), Err(AppError::GatewayTimeout)));
    assert!(matches!(task_reply(&call, Reply::Failed), Err(AppError::InternalError)));
}

#[test]
fn replies_to_a_delete() {
    let call = TaskCall::Delete { id: ID.to_string() };
    assert_eq!(shown(task_reply(&call, Reply::Parsed(task()))), Some((200, None)));
    for reply in [Reply::Unreadable("eof".to_string()), Reply::TimedOut] {
        match task_reply(&call, reply) {
            Err(AppError::NotFound(m)) => assert_eq!(m, format!("Task with ID {} not found", ID)),
            _ => panic!(),
        }
    }
    assert!(matches!(task_reply(&call, Reply::Failed), Err(AppError::InternalError)));
}

#[test]
fn replies_to_a_creation() {
    let call = TaskCall::Create { body: new_task("ab", "long enough") };
    assert_eq!(shown(task_reply(&call, Reply::Parsed(task()))), Some((201, Some((7, "walk".to_string())))));
    match task_reply(&call, Reply::Unreadable("eof".to_string())) {
        Err(AppError::SerdeJson(m)) => assert_eq!(m, "eof"),
        _ => panic!(),
    }
    match task_reply(&call, Reply::TimedOut) {
        Err(AppError::AnyhowError(m)) => assert_eq!(m, "Timed out waiting for task creation responses"),
        _ => panic!(),
    }
    assert!(matches!(task_reply(&call, Reply::Failed), Err(AppError::InternalError)));
}

#[test]
fn a_drop_and_its_replies() {
    let x = drop_request("r-4".to_string());
    assert_eq!(fields(&x.request), vec![("payload", ""), ("request_id", "r-4"), ("action", "drop")]);
    assert_eq!(x.wait_seconds, 30);
    assert_eq!(drop_reply(Reply::Parsed("dropped".to_string())).ok(), Some((200, "dropped".to_string())));
    assert!(matches!(drop_reply(Reply::Unreadable("e".to_string())), Err(AppError::SerdeJson(_))));
    assert!(matches!(drop_reply(Reply::TimedOut), Err(AppError::AnyhowError(_))));
    assert!(matches!(drop_reply(Reply::Failed), Err(AppError::InternalError)));
}

#[test]
fn the_consumer_reads_the_id_of_a_read() {
    let plan = process_message("read", Ok(ReadDto::new(ID.to_string())));
    assert_eq!(plan, Ok(MessagePlan::Read { id: 0x550e8400_e29b_41d4_a716_446655440000 }));
    assert!(process_message("read", Ok(ReadDto::new("zz".to_string()))).is_err());
}

#[test]
fn the_consumer_acknowledges_then_trims() {
    assert_eq!(consumer_name("abc"), "consumer-abc");
    assert_eq!(
        read_group_args("consumer-abc"),
        vec!["GROUP", "mygroup", "consumer-abc", "BLOCK", "0", "STREAMS", "users_stream", "tasks_stream", ">", ">"]
    );
    assert_eq!(
        entry_follow_ups("tasks_stream", "1-0"),
        vec![
            vec!["XACK", "tasks_stream", "mygroup", "1-0"],
            vec!["XTRIM", "tasks_stream", "MAXLEN", "~", "1000"],
        ]
    );
}

#[test]
fn the_subscriber_reads_delete_ids() {
    match subscriber_step("task:delete", ID) {
        SubscriberStep::Delete(v) => assert_eq!(v, 0x550e8400_e29b_41d4_a716_446655440000),
        _ => panic!(),
    }
    assert!(matches!(subscriber_step("task:delete", "nope"), SubscriberStep::Fail(_)));
    assert!(matches!(subscriber_step("task:create", "{}"), SubscriberStep::Create));
    assert!(matches!(subscriber_step("task:update", "{}"), SubscriberStep::Update));
    assert!(matches!(subscriber_step("task:drop", ""), SubscriberStep::Drop));
    assert!(matches!(subscriber_step("task:other", ""), SubscriberStep::Unknown));
}

fn body(r: &(u16, ApiErrorMessage)) -> (u16, u16, &str, &str, Option<i32>) {
    (r.0, r.1.status, r.1.error.as_str(), r.1.message.as_str(), r.1.code)
}

#[test]
fn update_errors_are_answered_as_documented() {
    let v = ValidationErrors { errors: vec![FieldError { field: Field::Title, rule: Rule::Length { min: 2 } }] };
    let r = update_task_error_response(AppError::ValidationError(v), ID);
    assert_eq!(body(&r), (400, 400, "Validation Error", "Validation failed for the provided input.", None));
    assert!(matches!(r.1.details, Some(ErrorDetails::Validation(_))));
    let r = update_task_error_response(AppError::Postgres(SqlxError::RowNotFound), ID);
    let message = format!("Task with ID {} not found", ID);
    assert_eq!(body(&r), (404, 404, "Not Found", message.as_str(), None));
    assert!(matches!(r.1.details, Some(ErrorDetails::Null)));
    let r = update_task_error_response(AppError::UuidError("bad".to_string()), "12");
    assert_eq!(body(&r), (400, 400, "Bad Request", "Invalid id", None));
    let r = update_task_error_response(AppError::InternalError, ID);
    assert_eq!(body(&r), (500, 500, "Internal Server Error", "An unexpected error occurred.", None));
    assert!(matches!(r.1.details, Some(ErrorDetails::Null)));
    let r = update_task_error_response(AppError::Redis("down".to_string()), ID);
    assert_eq!(body(&r), (500, 500, "Internal Server Error", "An unexpected error occurred.", None));
}

#[test]
fn not_found_and_bad_request_agree_with_from_status() {
    let a = ApiErrorMessage::not_found("gone".to_string());
    let b = ApiErrorMessage::from_status(404, "gone".to_string());
    assert_eq!((a.status, a.error.as_str(), a.message.as_str(), a.code), (b.status, b.error.as_str(), b.message.as_str(), b.code));
    assert_eq!(a.error, "Not Found");
    assert!(a.details.is_none() && b.details.is_none());
    let a = ApiErrorMessage::bad_request("no".to_string());
    let b = ApiErrorMessage::from_status(400, "no".to_string());
    assert_eq!((a.status, a.error.as_str(), a.code), (b.status, b.error.as_str(), b.code));
    assert_eq!(a.error, "Bad Request");
}

#[test]
fn task_calls_reach_the_consumer_as_their_action() {
    let get = TaskCall::Get { id: ID.to_string() };
    let x = task_request(&get, String::new(), "r".to_string()).ok().unwrap();
    assert_eq!(
        process_message(&x.request.fields[2].1, Ok(ReadDto::new(ID.to_string()))),
        Ok(MessagePlan::Read { id: 0x550e8400_e29b_41d4_a716_446655440000 })
    );
    let create = TaskCall::Create { body: new_task("ab", "long enough") };
    let x = task_request(&create, String::new(), "r".to_string()).ok().unwrap();
    assert_eq!(process_message(&x.request.fields[2].1, Err(String::new())), Ok(MessagePlan::Create));
    let delete = TaskCall::Delete { id: ID.to_string() };
    let x = task_request(&delete, String::new(), "r".to_string()).ok().unwrap();
    assert_eq!(
        process_message(&x.request.fields[2].1, Err(String::new())),
        Err("Unrecognized or not implemented".to_string())
    );
}
