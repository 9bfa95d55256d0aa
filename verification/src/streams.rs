//! The vocabulary of the task message streams: stream names, entry keys,
//! CRUD actions and the small payload objects sent over them.
use vstd::prelude::*;
use vstd::string::*;
use crate::text::str_eq;

verus! {

/// Payload of a read request: the id of the item to read.
pub struct ReadDto {
    pub id: String,
}

impl ReadDto {
    pub fn new(id: String) -> (res: Self)
        ensures
            res.id == id,
    {
        ReadDto { id }
    }
}

/// Payload of a delete request: the id of the item to delete.
pub struct DeleteDto {
    pub id: String,
}

impl DeleteDto {
    pub fn new(id: String) -> (res: Self)
        ensures
            res.id == id,
    {
        DeleteDto { id }
    }
}

/// The keys of the fields of a stream entry.
#[derive(Debug, Clone, Copy, PartialEq, Eq, Structural)]
pub enum StreamKeys {
    Payload,
    RequestId,
    Action,
}

/// The snake-case name of each stream key.
pub open spec fn stream_key_name(k: StreamKeys) -> Seq<char> {
    match k {
        StreamKeys::Payload => "payload"@,
        StreamKeys::RequestId => "request_id"@,
        StreamKeys::Action => "action"@,
    }
}

/// The key whose snake-case name is `s`, if any.
pub open spec fn stream_key_from_name(s: Seq<char>) -> Option<StreamKeys> {
    if s == "payload"@ {
        Some(StreamKeys::Payload)
    } else if s == "request_id"@ {
        Some(StreamKeys::RequestId)
    } else if s == "action"@ {
        Some(StreamKeys::Action)
    } else {
        None
    }
}

impl StreamKeys {
    /// The snake-case name of the key.
    pub fn as_str(&self) -> (res: &'static str)
        ensures
            res@ == stream_key_name(*self),
    {
        match self {
            StreamKeys::Payload => "payload",
            StreamKeys::RequestId => "request_id",
            StreamKeys::Action => "action",
        }
    }

    /// Reads a key from its snake-case name.
    pub fn parse(s: &str) -> (res: Option<StreamKeys>)
        ensures
            res == stream_key_from_name(s@),
    {
        if str_eq(s, "payload") {
            Some(StreamKeys::Payload)
        } else if str_eq(s, "request_id") {
            Some(StreamKeys::RequestId)
        } else if str_eq(s, "action") {
            Some(StreamKeys::Action)
        } else {
            None
        }
    }
}

/// Reading a key back from its name gives the key: the names are distinct.
pub proof fn lemma_stream_key_round_trip(k: StreamKeys)
    ensures
        stream_key_from_name(stream_key_name(k)) == Some(k),
{
    reveal_strlit("payload");
    reveal_strlit("request_id");
    reveal_strlit("action");
    assert("payload"@[0] == 'p' && "payload"@.len() == 7);
    assert("request_id"@[0] == 'r' && "request_id"@.len() == 10);
    assert("action"@[0] == 'a' && "action"@.len() == 6);
}

/// The CRUD actions a stream entry can ask for.
#[derive(Debug, Clone, Copy, PartialEq, Eq, Structural)]
pub enum CrudActions {
    Read,
    Create,
    List,
    Update,
    Delete,
    Drop,
}

/// The snake-case name of each action.
pub open spec fn crud_action_name(a: CrudActions) -> Seq<char> {
    match a {
        CrudActions::Read => "read"@,
        CrudActions::Create => "create"@,
        CrudActions::List => "list"@,
        CrudActions::Update => "update"@,
        CrudActions::Delete => "delete"@,
        CrudActions::Drop => "drop"@,
    }
}

/// The action whose snake-case name is `s`, if any.
pub open spec fn crud_action_from_name(s: Seq<char>) -> Option<CrudActions> {
    if s == "read"@ {
        Some(CrudActions::Read)
    } else if s == "create"@ {
        Some(CrudActions::Create)
    } else if s == "list"@ {
        Some(CrudActions::List)
    } else if s == "update"@ {
        Some(CrudActions::Update)
    } else if s == "delete"@ {
        Some(CrudActions::Delete)
    } else if s == "drop"@ {
        Some(CrudActions::Drop)
    } else {
        None
    }
}

impl CrudActions {
    /// The snake-case name of the action.
    pub fn as_str(&self) -> (res: &'static str)
        ensures
            res@ == crud_action_name(*self),
    {
        match self {
            CrudActions::Read => "read",
            CrudActions::Create => "create",
            CrudActions::List => "list",
            CrudActions::Update => "update",
            CrudActions::Delete => "delete",
            CrudActions::Drop => "drop",
        }
    }

    /// Reads an action from its snake-case name.
    pub fn parse(s: &str) -> (res: Option<CrudActions>)
        ensures
            res == crud_action_from_name(s@),
    {
        if str_eq(s, "read") {
            Some(CrudActions::Read)
        } else if str_eq(s, "create") {
            Some(CrudActions::Create)
        } else if str_eq(s, "list") {
            Some(CrudActions::List)
        } else if str_eq(s, "update") {
            Some(CrudActions::Update)
        } else if str_eq(s, "delete") {
            Some(CrudActions::Delete)
        } else if str_eq(s, "drop") {
            Some(CrudActions::Drop)
        } else {
            None
        }
    }
}

/// Reading an action back from its name gives the action: the names are distinct.
pub proof fn lemma_crud_action_round_trip(a: CrudActions)
    ensures
        crud_action_from_name(crud_action_name(a)) == Some(a),
{
    reveal_strlit("read");
    reveal_strlit("create");
    reveal_strlit("list");
    reveal_strlit("update");
    reveal_strlit("delete");
    reveal_strlit("drop");
    assert("read"@[0] == 'r' && "read"@.len() == 4);
    assert("create"@[0] == 'c' && "create"@.len() == 6);
    assert("list"@[0] == 'l' && "list"@.len() == 4);
    assert("update"@[0] == 'u' && "update"@.len() == 6);
    assert("delete"@[0] == 'd' && "delete"@.len() == 6);
    assert("drop"@[0] == 'd' && "drop"@.len() == 4);
}

/// The two message streams.
#[derive(Debug, Clone, Copy, PartialEq, Eq, Structural)]
pub enum Stream {
    Users,
    Tasks,
}

/// The name of each stream.
pub open spec fn stream_name(s: Stream) -> Seq<char> {
    match s {
        Stream::Users => "users_stream"@,
        Stream::Tasks => "tasks_stream"@,
    }
}

/// The stream with the given name, if any.
pub open spec fn stream_from_name(s: Seq<char>) -> Option<Stream> {
    if s == "users_stream"@ {
        Some(Stream::Users)
    } else if s == "tasks_stream"@ {
        Some(Stream::Tasks)
    } else {
        None
    }
}

impl Stream {
    /// Returns the string representation of the stream.
    pub fn as_str(&self) -> (res: &'static str)
        ensures
            res@ == stream_name(*self),
    {
        match self {
            Stream::Users => "users_stream",
            Stream::Tasks => "tasks_stream",
        }
    }

    /// Returns all stream names, users first.
    pub fn all_streams() -> (res: [&'static str; 2])
        ensures
            res[0]@ == stream_name(Stream::Users),
            res[1]@ == stream_name(Stream::Tasks),
    {
        [Stream::Users.as_str(), Stream::Tasks.as_str()]
    }

    /// Reads a stream from its name; any other name is refused with `Err(())`.
    pub fn from_str(s: &str) -> (res: Result<Stream, ()>)
        ensures
            res == (match stream_from_name(s@) {
                Some(st) => Ok(st),
                None => Err(()),
            }),
    {
        if str_eq(s, "users_stream") {
            Ok(Stream::Users)
        } else if str_eq(s, "tasks_stream") {
            Ok(Stream::Tasks)
        } else {
            Err(())
        }
    }
}

/// Reading a stream back from its name gives the stream: the names are distinct.
pub proof fn lemma_stream_round_trip(s: Stream)
    ensures
        stream_from_name(stream_name(s)) == Some(s),
{
    reveal_strlit("users_stream");
    reveal_strlit("tasks_stream");
    assert("users_stream"@[0] == 'u' && "users_stream"@.len() == 12);
    assert("tasks_stream"@[0] == 't' && "tasks_stream"@.len() == 12);
}

pub const USERS_STREAM: &'static str = "users_stream";
pub const TASKS_STREAM: &'static str = "tasks_stream";
pub const CREATE: &'static str = "create";
pub const DELETE: &'static str = "delete";
pub const UPDATE: &'static str = "update";
pub const GROUP_NAME: &'static str = "mygroup";
pub const PAYLOAD: &'static str = "payload";

/// The streams the consumers read, tasks first.
pub fn redis_streams() -> (res: [&'static str; 2])
    ensures
        res[0]@ == stream_name(Stream::Tasks),
        res[1]@ == stream_name(Stream::Users),
{
    [TASKS_STREAM, USERS_STREAM]
}

} // verus!
