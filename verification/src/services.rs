//! Requests to the time-series database's administration interface.
use vstd::prelude::*;
use std::collections::HashMap;

verus! {

/// A label to create in an organization, with optional properties.
pub struct UpdateLabel {
    pub org_id: &'static str,
    pub name: &'static str,
    pub properties: Option<HashMap<String, String>>,
}

/// The cache server address, given what variable `REDIS_HOST` held; the
/// variable must be set.
pub fn get_redis_uri(value: Option<String>) -> (res: String)
    requires
        value is Some,
    ensures
        res@ == value->Some_0@,
{
    match value {
        Some(v) => v,
        None => String::new(),
    }
}

} // verus!
