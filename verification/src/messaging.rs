//! The task messages exchanged over the cache server: the stream entries
//! that carry requests, the keys replies come back on, the publish/subscribe
//! topics, and what a consumer does with each message.
use vstd::prelude::*;
use vstd::string::*;
use crate::errors::AppError;
use crate::ids::{parse_record_id, uuid_parse_of};
use crate::models::task::{create_task_errors, CreateTask, Task};
use crate::streams::{
    crud_action_from_name, crud_action_name, stream_key_name, stream_name, CrudActions, ReadDto,
    Stream, StreamKeys, GROUP_NAME, TASKS_STREAM, USERS_STREAM,
};
use crate::text::str_eq;

verus! {

/// A request to put on a stream, and where its reply will come back.
pub struct StreamRequest {
    /// The stream the entry is added to.
    pub stream: &'static str,
    /// The fields of the entry: key and value.
    pub fields: Vec<(&'static str, String)>,
    /// The list the consumer pushes its reply to.
    pub response_key: String,
}

/// The list on which the reply to request `request_id` arrives.
pub open spec fn response_key_of(request_id: Seq<char>) -> Seq<char> {
    "response:"@ + request_id
}

/// The key under which a request's reply arrives.
pub fn response_key(request_id: &str) -> (res: String)
    ensures
        res@ == response_key_of(request_id@),
{
    let mut key = String::from_str("response:");
    key.append(request_id);
    key
}

/// `r` asks the task consumer for `action` on `payload` under `request_id`:
/// on the tasks stream, the payload, the request id and the action's name,
/// in this order, with the reply expected on the request's response key.
pub open spec fn requests(
    r: StreamRequest,
    action: CrudActions,
    payload: Seq<char>,
    request_id: Seq<char>,
) -> bool {
    &&& r.stream@ == stream_name(Stream::Tasks)
    &&& r.fields@.len() == 3
    &&& r.fields@[0].0@ == stream_key_name(StreamKeys::Payload)
    &&& r.fields@[0].1@ == payload
    &&& r.fields@[1].0@ == stream_key_name(StreamKeys::RequestId)
    &&& r.fields@[1].1@ == request_id
    &&& r.fields@[2].0@ == stream_key_name(StreamKeys::Action)
    &&& r.fields@[2].1@ == crud_action_name(action)
    &&& r.response_key@ == response_key_of(request_id)
}

/// The entry that asks the task consumer for `action` on `payload`: the
/// payload, the request id and the action's name, on the tasks stream.
pub fn stream_request(action: CrudActions, payload: String, request_id: String) -> (res:
    StreamRequest)
    ensures
        requests(res, action, payload@, request_id@),
{
    let key = response_key(request_id.as_str());
    let mut fields: Vec<(&'static str, String)> = Vec::new();
    fields.push((StreamKeys::Payload.as_str(), payload));
    fields.push((StreamKeys::RequestId.as_str(), request_id));
    fields.push((StreamKeys::Action.as_str(), String::from_str(action.as_str())));
    StreamRequest { stream: Stream::Tasks.as_str(), fields, response_key: key }
}

/// How long a handler waits for the reply to a request, in seconds.
pub const REPLY_WAIT_SECONDS: u64 = 30;

/// A request to send and how long to wait for its reply: one entry is added
/// to the stream, then one blocking pop waits on the response key.
pub struct Exchange {
    pub request: StreamRequest,
    pub wait_seconds: u64,
}

/// `x` sends the request `requests` describes and waits the usual time.
pub open spec fn exchanges(
    x: Exchange,
    action: CrudActions,
    payload: Seq<char>,
    request_id: Seq<char>,
) -> bool {
    requests(x.request, action, payload, request_id) && x.wait_seconds == REPLY_WAIT_SECONDS
}

/// A call of the request/response task endpoints: the path id of a read or a
/// delete, or the body of a creation.
pub enum TaskCall {
    Get { id: String },
    Delete { id: String },
    Create { body: CreateTask },
}

/// The action each call asks the consumer for.
pub open spec fn task_call_action(call: TaskCall) -> CrudActions {
    match call {
        TaskCall::Get { .. } => CrudActions::Read,
        TaskCall::Delete { .. } => CrudActions::Delete,
        TaskCall::Create { .. } => CrudActions::Create,
    }
}

/// How the wait for a reply ended.
pub enum Reply<T> {
    /// A reply arrived and reads as the expected value.
    Parsed(T),
    /// A reply arrived that does not read as the expected value; the text
    /// says why.
    Unreadable(String),
    /// Nothing arrived within the waiting time.
    TimedOut,
    /// The cache server failed the wait.
    Failed,
}

/// The first step of a task call, before anything is sent: a read refuses a
/// path id that is no UUID and a creation refuses a body that breaks its
/// rules, both with nothing sent; otherwise the request for the call's action
/// on `payload` (the JSON of the call's data) under `request_id`.
pub fn task_request(call: &TaskCall, payload: String, request_id: String) -> (res: Result<
    Exchange,
    AppError,
>)
    ensures
        match *call {
            TaskCall::Get { id } => match res {
                Ok(x) => uuid_parse_of(id@) is Ok && exchanges(x, CrudActions::Read, payload@, request_id@),
                Err(AppError::UuidError(m)) => uuid_parse_of(id@) == Err::<u128, Seq<char>>(m@),
                Err(_) => false,
            },
            TaskCall::Create { body } => match res {
                Ok(x) => create_task_errors(body).len() == 0 && exchanges(
                    x,
                    CrudActions::Create,
                    payload@,
                    request_id@,
                ),
                Err(AppError::ValidationError(v)) => create_task_errors(body).len() > 0
                    && v.errors@ == create_task_errors(body),
                Err(_) => false,
            },
            TaskCall::Delete { .. } => res matches Ok(x) && exchanges(
                x,
                CrudActions::Delete,
                payload@,
                request_id@,
            ),
        },
{
    let action = match call {
        TaskCall::Get { id } => {
            match parse_record_id(id.as_str()) {
                Ok(_) => CrudActions::Read,
                Err(m) => return Err(AppError::UuidError(m)),
            }
        },
        TaskCall::Create { body } => {
            match body.validate() {
                Ok(()) => CrudActions::Create,
                Err(v) => return Err(AppError::ValidationError(v)),
            }
        },
        TaskCall::Delete { .. } => CrudActions::Delete,
    };
    Ok(Exchange { request: stream_request(action, payload, request_id), wait_seconds: REPLY_WAIT_SECONDS })
}

/// The status and task a task call answers once its reply came back, or the
/// error it ends in. A read answers the task with 200, an unreadable reply as
/// not found and a timeout with 504. A delete answers 200 when the deleted
/// task came back and 404 for the id when it did not. A creation answers the
/// new task with 201, passes on the text of an unreadable reply and answers
/// a timeout as an internal error. A failed wait is always an internal error.
pub fn task_reply(call: &TaskCall, reply: Reply<Task>) -> (res: Result<(u16, Option<Task>), AppError>)
    ensures
        match (*call, reply) {
            (_, Reply::Failed) => res matches Err(AppError::InternalError),
            (TaskCall::Get { .. }, Reply::Parsed(t)) => res == Ok::<(u16, Option<Task>), AppError>((200, Some(t))),
            (TaskCall::Get { .. }, Reply::Unreadable(_)) => res matches Err(AppError::NotFound(m))
                && m@ == "No found"@,
            (TaskCall::Get { .. }, Reply::TimedOut) => res matches Err(AppError::GatewayTimeout),
            (TaskCall::Delete { .. }, Reply::Parsed(_)) => res == Ok::<(u16, Option<Task>), AppError>((200, None)),
            (TaskCall::Delete { id }, _) => res matches Err(AppError::NotFound(m))
                && m@ == "Task with ID "@ + id@ + " not found"@,
            (TaskCall::Create { .. }, Reply::Parsed(t)) => res == Ok::<(u16, Option<Task>), AppError>((201, Some(t))),
            (TaskCall::Create { .. }, Reply::Unreadable(e)) => res matches Err(AppError::SerdeJson(m))
                && m@ == e@,
            (TaskCall::Create { .. }, Reply::TimedOut) => res matches Err(AppError::AnyhowError(m))
                && m@ == "Timed out waiting for task creation responses"@,
        },
{
    match reply {
        Reply::Failed => Err(AppError::InternalError),
        Reply::Parsed(t) => match call {
            TaskCall::Get { .. } => Ok((200, Some(t))),
            TaskCall::Delete { .. } => Ok((200, None)),
            TaskCall::Create { .. } => Ok((201, Some(t))),
        },
        Reply::Unreadable(e) => match call {
            TaskCall::Get { .. } => Err(AppError::NotFound(String::from_str("No found"))),
            TaskCall::Delete { id } => Err(AppError::NotFound(task_not_found_message(id.as_str()))),
            TaskCall::Create { .. } => Err(AppError::SerdeJson(e)),
        },
        Reply::TimedOut => match call {
            TaskCall::Get { .. } => Err(AppError::GatewayTimeout),
            TaskCall::Delete { id } => Err(AppError::NotFound(task_not_found_message(id.as_str()))),
            TaskCall::Create { .. } => Err(AppError::AnyhowError(
                String::from_str("Timed out waiting for task creation responses"),
            )),
        },
    }
}

/// The message that no task has the id `id`.
pub fn task_not_found_message(id: &str) -> (res: String)
    ensures
        res@ == "Task with ID "@ + id@ + " not found"@,
{
    let mut m = String::from_str("Task with ID ");
    m.append(id);
    m.append(" not found");
    m
}

/// The request that drops the task collection: an empty payload with the
/// drop action under `request_id`, and the usual wait.
pub fn drop_request(request_id: String) -> (res: Exchange)
    ensures
        exchanges(res, CrudActions::Drop, ""@, request_id@),
{
    Exchange {
        request: stream_request(CrudActions::Drop, String::from_str(""), request_id),
        wait_seconds: REPLY_WAIT_SECONDS,
    }
}

/// The answer to a drop once its reply came back: 200 with the text the
/// consumer replied; the text of an unreadable reply; a timeout and a failed
/// wait as in a creation.
pub fn drop_reply(reply: Reply<String>) -> (res: Result<(u16, String), AppError>)
    ensures
        match reply {
            Reply::Parsed(t) => res matches Ok(r) && r.0 == 200 && r.1@ == t@,
            Reply::Unreadable(e) => res matches Err(AppError::SerdeJson(m)) && m@ == e@,
            Reply::TimedOut => res matches Err(AppError::AnyhowError(m))
                && m@ == "Timed out waiting for task creation responses"@,
            Reply::Failed => res matches Err(AppError::InternalError),
        },
{
    match reply {
        Reply::Parsed(t) => Ok((200, t)),
        Reply::Unreadable(e) => Err(AppError::SerdeJson(e)),
        Reply::TimedOut => Err(AppError::AnyhowError(
            String::from_str("Timed out waiting for task creation responses"),
        )),
        Reply::Failed => Err(AppError::InternalError),
    }
}

/// The kinds of message the request/response consumer carries out.
#[derive(Debug, Clone, Copy, PartialEq, Eq, Structural)]
pub enum MessageKind {
    /// Read the payload as a new item, store it and reply with it.
    Create,
    /// Read the payload as an id, fetch that item and reply with it.
    Read,
}

/// The kind of a message carrying `action`, or the text of the error the
/// consumer replies with: an unknown action name, or an action it does not
/// carry out.
pub open spec fn message_kind_of(action: Seq<char>) -> Result<MessageKind, Seq<char>> {
    match crud_action_from_name(action) {
        None => Err("Matching variant not found"@),
        Some(CrudActions::Create) => Ok(MessageKind::Create),
        Some(CrudActions::Read) => Ok(MessageKind::Read),
        Some(_) => Err("Unrecognized or not implemented"@),
    }
}

/// What the consumer does with a message, once it is decided.
#[derive(Debug, Clone, Copy, PartialEq, Eq, Structural)]
pub enum MessagePlan {
    /// Store the new item the payload holds and reply with it.
    Create,
    /// Fetch the item with this id and reply with it.
    Read { id: u128 },
}

/// What the consumer does with a message carrying `action`, whose payload
/// read as a read request gave `read_payload` (the text of the decoding
/// error when it is none). The action is read first: an unknown or not
/// carried out action is refused whatever the payload. A creation goes on
/// to store the payload. A read uses the payload: a payload that is no read
/// request, or whose id is no UUID, is refused before anything is fetched;
/// otherwise the item with that id is fetched.
pub fn process_message(action: &str, read_payload: Result<ReadDto, String>) -> (res: Result<
    MessagePlan,
    String,
>)
    ensures
        match message_kind_of(action@) {
            Err(t) => res matches Err(m) && m@ == t,
            Ok(MessageKind::Create) => res matches Ok(p) && p == MessagePlan::Create,
            Ok(MessageKind::Read) => match read_payload {
                Err(t) => res matches Err(m) && m@ == t@,
                Ok(dto) => match uuid_parse_of(dto.id@) {
                    Ok(v) => res matches Ok(p) && p == (MessagePlan::Read { id: v }),
                    Err(e) => res matches Err(m) && m@ == e,
                },
            },
        },
{
    match CrudActions::parse(action) {
        None => Err(String::from_str("Matching variant not found")),
        Some(CrudActions::Create) => Ok(MessagePlan::Create),
        Some(CrudActions::Read) => match read_payload {
            Err(t) => Err(t),
            Ok(dto) => match parse_record_id(dto.id.as_str()) {
                Ok(id) => Ok(MessagePlan::Read { id }),
                Err(e) => Err(e),
            },
        },
        Some(_) => Err(String::from_str("Unrecognized or not implemented")),
    }
}

/// A request put on the tasks stream reaches the consumer as the action it
/// names: creations and reads are carried out, the other actions are refused
/// as not implemented, and none is mistaken for an unknown action.
pub proof fn lemma_request_reaches_consumer(action: CrudActions)
    ensures
        message_kind_of(crud_action_name(action)) == (match action {
            CrudActions::Create => Ok::<MessageKind, Seq<char>>(MessageKind::Create),
            CrudActions::Read => Ok::<MessageKind, Seq<char>>(MessageKind::Read),
            _ => Err::<MessageKind, Seq<char>>("Unrecognized or not implemented"@),
        }),
{
    crate::streams::lemma_crud_action_round_trip(action);
}

/// What a task call sends reaches the request/response consumer as the
/// call's action: reads and creations are carried out, and a delete is
/// refused as not implemented.
pub proof fn lemma_task_call_reaches_consumer(
    call: TaskCall,
    x: Exchange,
    payload: Seq<char>,
    request_id: Seq<char>,
)
    requires
        exchanges(x, task_call_action(call), payload, request_id),
    ensures
        message_kind_of(x.request.fields@[2].1@) == (match call {
            TaskCall::Get { .. } => Ok::<MessageKind, Seq<char>>(MessageKind::Read),
            TaskCall::Create { .. } => Ok::<MessageKind, Seq<char>>(MessageKind::Create),
            TaskCall::Delete { .. } => Err::<MessageKind, Seq<char>>(
                "Unrecognized or not implemented"@,
            ),
        }),
{
    lemma_request_reaches_consumer(task_call_action(call));
}

/// The publish/subscribe topics of task commands.
#[derive(Debug, Clone, Copy, PartialEq, Eq, Structural)]
pub enum Topic {
    Create,
    Delete,
    Update,
    Drop,
}

/// The channel name of each topic.
pub open spec fn topic_name(t: Topic) -> Seq<char> {
    match t {
        Topic::Create => "task:create"@,
        Topic::Delete => "task:delete"@,
        Topic::Update => "task:update"@,
        Topic::Drop => "task:drop"@,
    }
}

/// The topic of a channel name, if any.
pub open spec fn topic_from_name(s: Seq<char>) -> Option<Topic> {
    if s == "task:create"@ {
        Some(Topic::Create)
    } else if s == "task:delete"@ {
        Some(Topic::Delete)
    } else if s == "task:update"@ {
        Some(Topic::Update)
    } else if s == "task:drop"@ {
        Some(Topic::Drop)
    } else {
        None
    }
}

impl Topic {
    /// The channel name of the topic.
    pub fn as_str(&self) -> (res: &'static str)
        ensures
            res@ == topic_name(*self),
    {
        match self {
            Topic::Create => "task:create",
            Topic::Delete => "task:delete",
            Topic::Update => "task:update",
            Topic::Drop => "task:drop",
        }
    }

    /// The topic a message arrived on; `None` for a channel the subscriber
    /// does not know.
    pub fn from_channel(s: &str) -> (res: Option<Topic>)
        ensures
            res == topic_from_name(s@),
    {
        if str_eq(s, "task:create") {
            Some(Topic::Create)
        } else if str_eq(s, "task:delete") {
            Some(Topic::Delete)
        } else if str_eq(s, "task:update") {
            Some(Topic::Update)
        } else if str_eq(s, "task:drop") {
            Some(Topic::Drop)
        } else {
            None
        }
    }

    /// All topics the subscriber listens to, in the order it subscribes.
    pub fn all() -> (res: [Topic; 4])
        ensures
            res[0] == Topic::Create,
            res[1] == Topic::Delete,
            res[2] == Topic::Update,
            res[3] == Topic::Drop,
    {
        [Topic::Create, Topic::Delete, Topic::Update, Topic::Drop]
    }
}

/// A message published on a topic's channel arrives as that topic.
pub proof fn lemma_topic_round_trip(t: Topic)
    ensures
        topic_from_name(topic_name(t)) == Some(t),
{
    reveal_strlit("task:create");
    reveal_strlit("task:delete");
    reveal_strlit("task:update");
    reveal_strlit("task:drop");
    assert("task:create"@.len() == 11 && "task:create"@[5] == 'c');
    assert("task:delete"@.len() == 11 && "task:delete"@[5] == 'd');
    assert("task:update"@.len() == 11 && "task:update"@[5] == 'u');
    assert("task:drop"@.len() == 9 && "task:drop"@[5] == 'd');
}

/// What the stream consumer does with an entry.
#[derive(Debug, Clone, Copy, PartialEq, Eq, Structural)]
pub enum ConsumerStep {
    /// Nothing beyond acknowledging the entry.
    Skip,
    /// Read the payload as a new task and store it.
    CreateTask,
    /// Report that a delete was asked for.
    ReportDelete,
    /// Report an entry from a stream the consumer does not know.
    UnknownStream,
}

/// The step for an entry on stream `stream` whose first field is named `action`.
pub open spec fn consumer_step_of(stream: Seq<char>, action: Seq<char>) -> ConsumerStep {
    if stream == "users_stream"@ {
        ConsumerStep::Skip
    } else if stream == "tasks_stream"@ {
        if action == "create"@ {
            ConsumerStep::CreateTask
        } else if action == "delete"@ {
            ConsumerStep::ReportDelete
        } else {
            ConsumerStep::Skip
        }
    } else {
        ConsumerStep::UnknownStream
    }
}

/// The stream consumer acts on the entries stream requests write: on the
/// tasks stream a creation is stored and a delete reported, and any other
/// action skipped; every entry of the users stream is skipped.
pub proof fn lemma_consumer_acts_on_requests(a: CrudActions)
    ensures
        consumer_step_of(stream_name(Stream::Tasks), crud_action_name(a)) == (match a {
            CrudActions::Create => ConsumerStep::CreateTask,
            CrudActions::Delete => ConsumerStep::ReportDelete,
            _ => ConsumerStep::Skip,
        }),
        consumer_step_of(stream_name(Stream::Users), crud_action_name(a)) == ConsumerStep::Skip,
{
    reveal_strlit("users_stream");
    reveal_strlit("tasks_stream");
    reveal_strlit("create");
    reveal_strlit("delete");
    reveal_strlit("read");
    reveal_strlit("list");
    reveal_strlit("update");
    reveal_strlit("drop");
    assert("users_stream"@[0] != "tasks_stream"@[0]);
    assert("create"@[0] != "delete"@[0]);
    assert("update"@[0] != "create"@[0] && "update"@[0] != "delete"@[0]);
    assert("read"@.len() != "create"@.len() && "read"@.len() != "delete"@.len());
    assert("list"@.len() != "create"@.len() && "list"@.len() != "delete"@.len());
    assert("drop"@.len() != "create"@.len() && "drop"@.len() != "delete"@.len());
    assert(crud_action_name(a) == "create"@ <==> a == CrudActions::Create);
    assert(crud_action_name(a) == "delete"@ <==> a == CrudActions::Delete);
}

/// What the stream consumer does with an entry on `stream` whose first field
/// is named `action`.
pub fn consumer_step(stream: &str, action: &str) -> (res: ConsumerStep)
    ensures
        res == consumer_step_of(stream@, action@),
{
    if str_eq(stream, "users_stream") {
        ConsumerStep::Skip
    } else if str_eq(stream, "tasks_stream") {
        if str_eq(action, "create") {
            ConsumerStep::CreateTask
        } else if str_eq(action, "delete") {
            ConsumerStep::ReportDelete
        } else {
            ConsumerStep::Skip
        }
    } else {
        ConsumerStep::UnknownStream
    }
}

/// The name a stream consumer reads under: `consumer-` and a fresh id.
pub fn consumer_name(unique: &str) -> (res: String)
    ensures
        res@ == "consumer-"@ + unique@,
{
    let mut name = String::from_str("consumer-");
    name.append(unique);
    name
}

/// The arguments of the `XREADGROUP` command with which consumer `consumer`
/// of the group waits, without limit, for new entries of both streams.
pub open spec fn read_group_args_of(consumer: Seq<char>) -> Seq<Seq<char>> {
    seq![
        "GROUP"@,
        "mygroup"@,
        consumer,
        "BLOCK"@,
        "0"@,
        "STREAMS"@,
        "users_stream"@,
        "tasks_stream"@,
        ">"@,
        ">"@,
    ]
}

/// The views of a list of texts.
pub open spec fn texts_view(v: Seq<String>) -> Seq<Seq<char>> {
    v.map_values(|t: String| t@)
}

/// The arguments of the `XREADGROUP` command of consumer `consumer`.
pub fn read_group_args(consumer: &str) -> (res: Vec<String>)
    ensures
        texts_view(res@) == read_group_args_of(consumer@),
{
    let mut args: Vec<String> = Vec::new();
    args.push(String::from_str("GROUP"));
    args.push(String::from_str(GROUP_NAME));
    args.push(String::from_str(consumer));
    args.push(String::from_str("BLOCK"));
    args.push(String::from_str("0"));
    args.push(String::from_str("STREAMS"));
    args.push(String::from_str(USERS_STREAM));
    args.push(String::from_str(TASKS_STREAM));
    args.push(String::from_str(">"));
    args.push(String::from_str(">"));
    assert(texts_view(args@) =~= read_group_args_of(consumer@));
    args
}

/// The commands a consumer sends once it handled the entry `msg_id` of
/// `stream`: it acknowledges the entry in its group, then trims the stream
/// to about the last thousand entries.
pub open spec fn entry_follow_ups_of(stream: Seq<char>, msg_id: Seq<char>) -> Seq<Seq<Seq<char>>> {
    seq![
        seq!["XACK"@, stream, "mygroup"@, msg_id],
        seq!["XTRIM"@, stream, "MAXLEN"@, "~"@, "1000"@],
    ]
}

/// The commands that follow the handling of entry `msg_id` of `stream`,
/// each as its name and arguments.
pub fn entry_follow_ups(stream: &str, msg_id: &str) -> (res: Vec<Vec<String>>)
    ensures
        res@.len() == 2,
        texts_view(res@[0]@) == entry_follow_ups_of(stream@, msg_id@)[0],
        texts_view(res@[1]@) == entry_follow_ups_of(stream@, msg_id@)[1],
{
    let mut ack: Vec<String> = Vec::new();
    ack.push(String::from_str("XACK"));
    ack.push(String::from_str(stream));
    ack.push(String::from_str(GROUP_NAME));
    ack.push(String::from_str(msg_id));
    let mut trim: Vec<String> = Vec::new();
    trim.push(String::from_str("XTRIM"));
    trim.push(String::from_str(stream));
    trim.push(String::from_str("MAXLEN"));
    trim.push(String::from_str("~"));
    trim.push(String::from_str("1000"));
    assert(texts_view(ack@) =~= entry_follow_ups_of(stream@, msg_id@)[0]);
    assert(texts_view(trim@) =~= entry_follow_ups_of(stream@, msg_id@)[1]);
    let mut res: Vec<Vec<String>> = Vec::new();
    res.push(ack);
    res.push(trim);
    res
}

/// What the publish/subscribe subscriber does with a message.
pub enum SubscriberStep {
    /// Read the payload as a new task and store it.
    Create,
    /// Delete the task with this id.
    Delete(u128),
    /// Read the payload as an id and an update, and apply the update.
    Update,
    /// Drop the task collection.
    Drop,
    /// Stop with the error text: the payload of a delete is no id.
    Fail(String),
    /// Report a message on a channel it does not know.
    Unknown,
}

/// What the subscriber does with `payload` arriving on `channel`.
pub fn subscriber_step(channel: &str, payload: &str) -> (res: SubscriberStep)
    ensures
        match topic_from_name(channel@) {
            Some(Topic::Create) => res is Create,
            Some(Topic::Delete) => match uuid_parse_of(payload@) {
                Ok(v) => res == SubscriberStep::Delete(v),
                Err(e) => res matches SubscriberStep::Fail(m) && m@ == e,
            },
            Some(Topic::Update) => res is Update,
            Some(Topic::Drop) => res is Drop,
            None => res is Unknown,
        },
{
    match Topic::from_channel(channel) {
        Some(Topic::Create) => SubscriberStep::Create,
        Some(Topic::Delete) => match parse_record_id(payload) {
            Ok(v) => SubscriberStep::Delete(v),
            Err(e) => SubscriberStep::Fail(e),
        },
        Some(Topic::Update) => SubscriberStep::Update,
        Some(Topic::Drop) => SubscriberStep::Drop,
        None => SubscriberStep::Unknown,
    }
}

} // verus!
