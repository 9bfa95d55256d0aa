//! Settings read from the process environment. Reading the environment is the
//! caller's part: each function here takes what the variable held (`None`
//! when it is unset or not valid Unicode) and decides the setting.
use vstd::prelude::*;
use vstd::string::*;
use crate::numbers::{decimal, parse_u16, parse_u16_spec, push_decimal};

verus! {

/// Why a setting could not be had; each carries the variable's name.
#[derive(Debug, Clone, Copy, PartialEq, Eq)]
pub enum Error {
    MissingEnv(&'static str),
    WrongFormat(&'static str),
}

/// `name` is made of ASCII letters, digits and underscores.
pub open spec fn plain_name(name: Seq<char>) -> bool {
    forall|i: int|
        0 <= i < name.len() ==> {
            let c = #[trigger] name[i];
            ('A' <= c <= 'Z') || ('a' <= c <= 'z') || ('0' <= c <= '9') || c == '_'
        }
}

/// The text `Debug` writes for a string: in double quotes, with quotes,
/// backslashes and control characters escaped (`char::escape_debug`).
pub uninterp spec fn debug_text_of(text: Seq<char>) -> Seq<char>;

/// `format!("{:?}", text)`: the string in its `Debug` form; a plain name
/// needs no escaping, so it is the name between double quotes.
#[verifier::external_body]
fn debug_text(text: &str) -> (res: String)
    ensures
        res@ == debug_text_of(text@),
        plain_name(text@) ==> res@ == "\""@ + text@ + "\""@,
{
    format!("{:?}", text)
}

/// The name an error carries.
pub open spec fn error_name(e: Error) -> Seq<char> {
    match e {
        Error::MissingEnv(n) => n@,
        Error::WrongFormat(n) => n@,
    }
}

/// The text an error is shown as (its `Debug` form): the variant and the
/// name in its `Debug` form, in brackets.
pub open spec fn error_text(e: Error) -> Seq<char> {
    match e {
        Error::MissingEnv(n) => "MissingEnv("@ + debug_text_of(n@) + ")"@,
        Error::WrongFormat(n) => "WrongFormat("@ + debug_text_of(n@) + ")"@,
    }
}

/// The text of an error whose name is plain: the variant and the quoted name.
pub open spec fn plain_error_text(e: Error) -> Seq<char> {
    match e {
        Error::MissingEnv(n) => "MissingEnv(\""@ + n@ + "\")"@,
        Error::WrongFormat(n) => "WrongFormat(\""@ + n@ + "\")"@,
    }
}

impl Error {
    /// The text the error is shown as.
    pub fn to_string(&self) -> (res: String)
        ensures
            res@ == error_text(*self),
            plain_name(error_name(*self)) ==> res@ == plain_error_text(*self),
    {
        proof {
            reveal_strlit("\"");
            reveal_strlit("(");
            reveal_strlit(")");
            reveal_strlit("\")");
            reveal_strlit("MissingEnv(");
            reveal_strlit("WrongFormat(");
            reveal_strlit("MissingEnv(\"");
            reveal_strlit("WrongFormat(\"");
        }
        match self {
            Error::MissingEnv(n) => {
                let mut s = String::from_str("MissingEnv(");
                s.append(debug_text(n).as_str());
                s.append(")");
                assert(plain_name(n@) ==> s@ =~= plain_error_text(*self));
                s
            },
            Error::WrongFormat(n) => {
                let mut s = String::from_str("WrongFormat(");
                s.append(debug_text(n).as_str());
                s.append(")");
                assert(plain_name(n@) ==> s@ =~= plain_error_text(*self));
                s
            },
        }
    }
}

/// The view of an optional string.
pub open spec fn opt_text(v: Option<String>) -> Option<Seq<char>> {
    match v {
        Some(s) => Some(s@),
        None => None,
    }
}

/// The setting held by variable `name`: its value, or `MissingEnv`.
pub open spec fn env_text(name: &'static str, value: Option<Seq<char>>) -> Result<Seq<char>, Error> {
    match value {
        Some(v) => Ok(v),
        None => Err(Error::MissingEnv(name)),
    }
}

/// The number held by variable `name`: `MissingEnv` when unset,
/// `WrongFormat` when the text is no 16-bit decimal number.
pub open spec fn env_u16(name: &'static str, value: Option<Seq<char>>) -> Result<u16, Error> {
    match value {
        None => Err(Error::MissingEnv(name)),
        Some(v) => match parse_u16_spec(v) {
            Some(n) => Ok(n),
            None => Err(Error::WrongFormat(name)),
        },
    }
}

/// The result of reading a text setting, by view.
pub open spec fn text_result(r: Result<String, Error>) -> Result<Seq<char>, Error> {
    match r {
        Ok(s) => Ok(s@),
        Err(e) => Err(e),
    }
}

/// Access to the settings of the services.
#[derive(Debug)]
pub struct Env {}

impl Env {
    /// The value of variable `name`, given what the environment held.
    pub fn get_env(name: &'static str, value: Option<String>) -> (res: Result<String, Error>)
        ensures
            text_result(res) == env_text(name, opt_text(value)),
    {
        match value {
            Some(v) => Ok(v),
            None => Err(Error::MissingEnv(name)),
        }
    }

    /// The 16-bit number in variable `name`, given what the environment held.
    pub fn get_env_parse(name: &'static str, value: Option<String>) -> (res: Result<u16, Error>)
        ensures
            res == env_u16(name, opt_text(value)),
    {
        match value {
            None => Err(Error::MissingEnv(name)),
            Some(v) => match parse_u16(v.as_str()) {
                Some(n) => Ok(n),
                None => Err(Error::WrongFormat(name)),
            },
        }
    }

    /// The setting in variable `name` read as any type: `read` is what the
    /// variable held as the caller's parser read it (`None` when the variable
    /// is unset, `Some(None)` when its text does not parse).
    pub fn get_env_parsed<T>(name: &'static str, read: Option<Option<T>>) -> (res: Result<T, Error>)
        ensures
            match read {
                None => res == Err::<T, Error>(Error::MissingEnv(name)),
                Some(None) => res == Err::<T, Error>(Error::WrongFormat(name)),
                Some(Some(t)) => res == Ok::<T, Error>(t),
            },
    {
        match read {
            None => Err(Error::MissingEnv(name)),
            Some(None) => Err(Error::WrongFormat(name)),
            Some(Some(t)) => Ok(t),
        }
    }

    /// The listening port, from variable `PORT`.
    pub fn get_port(value: Option<String>) -> (res: Result<u16, Error>)
        ensures
            res == env_u16("PORT", opt_text(value)),
    {
        Env::get_env_parse("PORT", value)
    }

    /// The relational database address, from variable `DATABASE_URL`.
    pub fn get_postgres(value: Option<String>) -> (res: Result<String, Error>)
        ensures
            text_result(res) == env_text("DATABASE_URL", opt_text(value)),
    {
        Env::get_env("DATABASE_URL", value)
    }

    /// The cache server address, from variable `REDIS_HOST`.
    pub fn get_redis(value: Option<String>) -> (res: Result<String, Error>)
        ensures
            text_result(res) == env_text("REDIS_HOST", opt_text(value)),
    {
        Env::get_env("REDIS_HOST", value)
    }

    /// The document database address, from variable `MONGO_URI`.
    pub fn get_mongo(value: Option<String>) -> (res: Result<String, Error>)
        ensures
            text_result(res) == env_text("MONGO_URI", opt_text(value)),
    {
        Env::get_env("MONGO_URI", value)
    }

    /// The address to listen on: every interface, at the port in `PORT`,
    /// which must hold a valid port number.
    pub fn get_url(port_value: Option<String>) -> (res: String)
        requires
            env_u16("PORT", opt_text(port_value)) is Ok,
        ensures
            res@ == "0.0.0.0:"@ + decimal(env_u16("PORT", opt_text(port_value))->Ok_0 as nat),
    {
        let port = match Env::get_port(port_value) {
            Ok(p) => p,
            Err(_) => 0,
        };
        let mut s = String::from_str("0.0.0.0:");
        push_decimal(&mut s, port as u64);
        s
    }
}

} // verus!
