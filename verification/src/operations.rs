//! The time-series operations: flight types, the answer to failed
//! operations, and the time window attached to written position records.
use vstd::prelude::*;
use vstd::string::*;
use crate::text::str_eq;
use crate::numbers::{i64_to_string, signed_decimal};

verus! {

/// The states of a flight.
#[derive(Debug, Clone, Copy, PartialEq, Eq, Structural)]
pub enum Types {
    Submitted,
    Approved,
    Rejected,
    Ended,
    Contingent,
    Nonconforming,
    Withdrawn,
    Activated,
    Accepted,
    Canceled,
}

/// The name each flight state is written and read as.
pub open spec fn type_name_of(t: Types) -> Seq<char> {
    match t {
        Types::Submitted => "Submitted"@,
        Types::Approved => "Approved"@,
        Types::Rejected => "Rejected"@,
        Types::Ended => "Ended"@,
        Types::Contingent => "Contingent"@,
        Types::Nonconforming => "Nonconforming"@,
        Types::Withdrawn => "Withdrawn"@,
        Types::Activated => "Activated"@,
        Types::Accepted => "Accepted"@,
        Types::Canceled => "Canceled"@,
    }
}

/// The flight state with the given name, if any.
pub open spec fn type_from_name(s: Seq<char>) -> Option<Types> {
    if s == "Submitted"@ {
        Some(Types::Submitted)
    } else if s == "Approved"@ {
        Some(Types::Approved)
    } else if s == "Rejected"@ {
        Some(Types::Rejected)
    } else if s == "Ended"@ {
        Some(Types::Ended)
    } else if s == "Contingent"@ {
        Some(Types::Contingent)
    } else if s == "Nonconforming"@ {
        Some(Types::Nonconforming)
    } else if s == "Withdrawn"@ {
        Some(Types::Withdrawn)
    } else if s == "Activated"@ {
        Some(Types::Activated)
    } else if s == "Accepted"@ {
        Some(Types::Accepted)
    } else if s == "Canceled"@ {
        Some(Types::Canceled)
    } else {
        None
    }
}

impl Default for Types {
    fn default() -> (res: Self)
        ensures
            res == Types::Submitted,
    {
        Types::Submitted
    }
}

impl Types {
    /// The name of the state.
    pub fn as_str(&self) -> (res: &'static str)
        ensures
            res@ == type_name_of(*self),
    {
        match self {
            Types::Submitted => "Submitted",
            Types::Approved => "Approved",
            Types::Rejected => "Rejected",
            Types::Ended => "Ended",
            Types::Contingent => "Contingent",
            Types::Nonconforming => "Nonconforming",
            Types::Withdrawn => "Withdrawn",
            Types::Activated => "Activated",
            Types::Accepted => "Accepted",
            Types::Canceled => "Canceled",
        }
    }

    /// Reads a state from its name.
    pub fn parse(s: &str) -> (res: Option<Types>)
        ensures
            res == type_from_name(s@),
    {
        if str_eq(s, "Submitted") {
            Some(Types::Submitted)
        } else if str_eq(s, "Approved") {
            Some(Types::Approved)
        } else if str_eq(s, "Rejected") {
            Some(Types::Rejected)
        } else if str_eq(s, "Ended") {
            Some(Types::Ended)
        } else if str_eq(s, "Contingent") {
            Some(Types::Contingent)
        } else if str_eq(s, "Nonconforming") {
            Some(Types::Nonconforming)
        } else if str_eq(s, "Withdrawn") {
            Some(Types::Withdrawn)
        } else if str_eq(s, "Activated") {
            Some(Types::Activated)
        } else if str_eq(s, "Accepted") {
            Some(Types::Accepted)
        } else if str_eq(s, "Canceled") {
            Some(Types::Canceled)
        } else {
            None
        }
    }
}

/// Reading a flight state back from its name gives the state.
pub proof fn lemma_type_round_trip(t: Types)
    ensures
        type_from_name(type_name_of(t)) == Some(t),
{
    reveal_strlit("Submitted");
    reveal_strlit("Approved");
    reveal_strlit("Rejected");
    reveal_strlit("Ended");
    reveal_strlit("Contingent");
    reveal_strlit("Nonconforming");
    reveal_strlit("Withdrawn");
    reveal_strlit("Activated");
    reveal_strlit("Accepted");
    reveal_strlit("Canceled");
    assert("Submitted"@.len() == 9 && "Submitted"@[0] == 'S');
    assert("Approved"@.len() == 8 && "Approved"@[0] == 'A' && "Approved"@[1] == 'p');
    assert("Rejected"@.len() == 8 && "Rejected"@[0] == 'R');
    assert("Ended"@.len() == 5 && "Ended"@[0] == 'E');
    assert("Contingent"@.len() == 10 && "Contingent"@[0] == 'C' && "Contingent"@[1] == 'o');
    assert("Nonconforming"@.len() == 13 && "Nonconforming"@[0] == 'N');
    assert("Withdrawn"@.len() == 9 && "Withdrawn"@[0] == 'W');
    assert("Activated"@.len() == 9 && "Activated"@[0] == 'A' && "Activated"@[1] == 'c' && "Activated"@[2] == 't');
    assert("Accepted"@.len() == 8 && "Accepted"@[0] == 'A' && "Accepted"@[1] == 'c');
    assert("Canceled"@.len() == 8 && "Canceled"@[0] == 'C' && "Canceled"@[1] == 'a');
}

/// How a request to the time-series database failed.
#[derive(Debug, Clone, PartialEq, Eq)]
pub enum InfluxFailure {
    /// The database answered with an error status and text.
    Http { status: u16, text: String },
    /// The request could not be carried out; the text describes why.
    ReqwestProcessing { message: String },
    /// The request body could not be serialized.
    Serializing { message: String },
    /// The answer could not be read; the text is what came back.
    Deserializing { text: String },
}

/// The errors of the time-series handlers.
#[derive(Debug, Clone, PartialEq, Eq)]
pub enum MyError {
    /// A relational database failure, with its text.
    Sql(String),
    InfluxDB(InfluxFailure),
    Custom,
}

/// Status and text answered for each operation error.
pub open spec fn my_error_response(e: MyError) -> (u16, Seq<char>) {
    match e {
        MyError::Sql(m) => (400, m@),
        MyError::InfluxDB(f) => match f {
            InfluxFailure::Http { text, .. } => (500, text@),
            InfluxFailure::ReqwestProcessing { message } => (500, message@),
            InfluxFailure::Serializing { message } => (500, message@),
            InfluxFailure::Deserializing { text } => (500, text@),
        },
        MyError::Custom => (400, "shit"@),
    }
}

impl MyError {
    /// The status and text that answer the error.
    pub fn into_response(self) -> (res: (u16, String))
        ensures
            res.0 == my_error_response(self).0,
            res.1@ == my_error_response(self).1,
    {
        match self {
            MyError::Sql(m) => (400, m),
            MyError::InfluxDB(f) => match f {
                InfluxFailure::Http { text, .. } => (500, text),
                InfluxFailure::ReqwestProcessing { message } => (500, message),
                InfluxFailure::Serializing { message } => (500, message),
                InfluxFailure::Deserializing { text } => (500, text),
            },
            MyError::Custom => (400, String::from_str("shit")),
        }
    }
}

/// The query for the position records of the last week whose window ends
/// at or after `now` (seconds since the epoch).
pub open spec fn position_query_of(now: i64) -> Seq<char> {
    "\nfrom(bucket: \"home\")\n  |> range(start: -1w)\n  |> filter(fn: (r) => r.end_time >= \""@
        + signed_decimal(now as int) + "\")\n"@
}

/// Builds the query for the position records still open at `now`.
pub fn position_query(now: i64) -> (res: String)
    ensures
        res@ == position_query_of(now),
{
    let mut q = String::from_str(
        "\nfrom(bucket: \"home\")\n  |> range(start: -1w)\n  |> filter(fn: (r) => r.end_time >= \"",
    );
    let n = i64_to_string(now);
    q.append(n.as_str());
    q.append("\")\n");
    q
}

/// Seconds in a day.
pub const SECONDS_PER_DAY: i64 = 86400;

/// The window written with a position record seen at `now` (seconds since
/// the epoch): from three days before to two days after, as decimal text.
pub fn flight_window(now: i64) -> (res: (String, String))
    requires
        i64::MIN + 3 * 86400 <= now <= i64::MAX - 2 * 86400,
    ensures
        res.0@ == signed_decimal(now - 3 * 86400),
        res.1@ == signed_decimal(now + 2 * 86400),
{
    let start_time = i64_to_string(now - 3 * SECONDS_PER_DAY);
    let end_time = i64_to_string(now + 2 * SECONDS_PER_DAY);
    (start_time, end_time)
}

} // verus!
