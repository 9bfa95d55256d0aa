use playground::messaging::{
    consumer_step, process_message, response_key, stream_request, ConsumerStep, MessagePlan, Topic,
};
use playground::streams::{
    redis_streams, CrudActions, DeleteDto, ReadDto, Stream, StreamKeys, CREATE, DELETE, GROUP_NAME,
    PAYLOAD, TASKS_STREAM, UPDATE, USERS_STREAM,
};

#[test]
fn stream_names() {
    assert_eq!(Stream::Users.as_str(), "users_stream");
    assert_eq!(Stream::Tasks.as_str(), "tasks_stream");
    assert_eq!(Stream::all_streams(), ["users_stream", "tasks_stream"]);
    assert_eq!(redis_streams(), [TASKS_STREAM, USERS_STREAM]);
    assert_eq!(Stream::from_str("users_stream"), Ok(Stream::Users));
    assert_eq!(Stream::from_str("tasks_stream"), Ok(Stream::Tasks));
    assert_eq!(Stream::from_str("todo_stream"), Err(()));
    assert_eq!(Stream::from_str(""), Err(()));
    assert_eq!((CREATE, DELETE, UPDATE, GROUP_NAME, PAYLOAD), ("create", "delete", "update", "mygroup", "payload"));
}

#[test]
fn stream_keys_round_trip() {
    for k in [StreamKeys::Payload, StreamKeys::RequestId, StreamKeys::Action] {
        assert_eq!(StreamKeys::parse(k.as_str()), Some(k));
    }
    assert_eq!(StreamKeys::RequestId.as_str(), "request_id");
    assert_eq!(StreamKeys::parse("RequestId"), None);
}

#[test]
fn crud_actions_round_trip() {
    let all = [
        CrudActions::Read,
        CrudActions::Create,
        CrudActions::List,
        CrudActions::Update,
        CrudActions::Delete,
        CrudActions::Drop,
    ];
    let names = ["read", "create", "list", "update", "delete", "drop"];
    for (a, n) in all.iter().zip(names.iter()) {
        assert_eq!(a.as_str(), *n);
        assert_eq!(CrudActions::parse(n), Some(*a));
    }
    assert_eq!(CrudActions::parse("Read"), None);
}

#[test]
fn dto_constructors_keep_the_id() {
    assert_eq!(ReadDto::new("abc".to_string()).id, "abc");
    assert_eq!(DeleteDto::new("xyz".to_string()).id, "xyz");
}

#[test]
fn stream_request_fields() {
    let req = stream_request(CrudActions::Create, "{\"a\":1}".to_string(), "r-1".to_string());
    assert_eq!(req.stream, "tasks_stream");
    let fields: Vec<(&str, &str)> = req.fields.iter().map(|(k, v)| (*k, v.as_str())).collect();
    assert_eq!(fields, vec![("payload", "{\"a\":1}"), ("request_id", "r-1"), ("action", "create")]);
    assert_eq!(req.response_key, "response:r-1");
    assert_eq!(response_key("abc"), "response:abc");
}

#[test]
fn consumer_plans() {
    let id = "550e8400-e29b-41d4-a716-446655440000";
    let read = || Ok(ReadDto::new(id.to_string()));
    assert_eq!(process_message("create", Err("not a read".to_string())), Ok(MessagePlan::Create));
    assert_eq!(process_message("read", read()), Ok(MessagePlan::Read { id: 0x550e8400_e29b_41d4_a716_446655440000 }));
    assert_eq!(
        process_message("read", Err("expected value at line 1 column 1".to_string())),
        Err("expected value at line 1 column 1".to_string())
    );
    assert!(process_message("read", Ok(ReadDto::new("12".to_string()))).is_err());
    assert_eq!(process_message("delete", read()), Err("Unrecognized or not implemented".to_string()));
    assert_eq!(process_message("destroy", read()), Err("Matching variant not found".to_string()));
}

#[test]
fn requests_reach_the_consumer_as_sent() {
    for a in [CrudActions::Create, CrudActions::Read] {
        let req = stream_request(a, String::new(), "id".to_string());
        let expected = if a == CrudActions::Create { MessagePlan::Create } else { MessagePlan::Read { id: 1 } };
        let payload = Ok(ReadDto::new("00000000-0000-0000-0000-000000000001".to_string()));
        assert_eq!(process_message(&req.fields[2].1, payload), Ok(expected));
    }
}

#[test]
fn topics_round_trip() {
    let names = ["task:create", "task:delete", "task:update", "task:drop"];
    for (t, n) in Topic::all().iter().zip(names.iter()) {
        assert_eq!(t.as_str(), *n);
        assert_eq!(Topic::from_channel(n), Some(*t));
    }
    assert_eq!(Topic::from_channel("task:list"), None);
}

#[test]
fn stream_consumer_steps() {
    assert_eq!(consumer_step("users_stream", "create"), ConsumerStep::Skip);
    assert_eq!(consumer_step("tasks_stream", "create"), ConsumerStep::CreateTask);
    assert_eq!(consumer_step("tasks_stream", "delete"), ConsumerStep::ReportDelete);
    assert_eq!(consumer_step("tasks_stream", "update"), ConsumerStep::Skip);
    assert_eq!(consumer_step("other", "create"), ConsumerStep::UnknownStream);
}
