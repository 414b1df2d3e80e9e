//! The message shapes the surrounding dispatcher hands to the entry points
//! and the structured results it takes back. Wire encoding is the
//! dispatcher's concern; identities are opaque strings it has already
//! verified.

use vstd::prelude::*;

verus! {

/// The caller identity accompanying a request.
pub struct MessageInfo {
    pub sender: String,
}

pub struct InstantiateMsg {}

pub enum ExecuteMsg {
    Increment {},
    Reset {},
}

pub enum QueryMsg {
    GetCount {},
}

pub struct MigrateMsg {}

/// The answer to [`QueryMsg::GetCount`]: the counter and the history of
/// callers that incremented it since the last reset, verbatim.
pub struct GetCountResponse {
    pub count: i32,
    pub incrementors: Vec<String>,
}

/// One key-value observation attached to a successful operation for the
/// external telemetry collaborator. An observability hook only: nothing in
/// the state machine depends on it.
pub struct Attribute {
    pub key: String,
    pub value: String,
}

/// The structured result of a successful mutating operation: the emitted
/// observations, in order.
pub struct Response {
    pub attributes: Vec<Attribute>,
}

impl Response {
    pub fn new() -> (r: Response)
        ensures
            r.attributes@.len() == 0,
    {
        Response { attributes: Vec::new() }
    }

    /// Appends one observation; earlier ones are kept unchanged, in order.
    pub fn add_attribute(self, key: &str, value: &str) -> (r: Response)
        ensures
            r.attributes@.len() == self.attributes@.len() + 1,
            forall|i: int|
                0 <= i < self.attributes@.len() ==> r.attributes@[i] == self.attributes@[i],
            r.attributes@.last().key@ == key@,
            r.attributes@.last().value@ == value@,
    {
        let mut attributes = self.attributes;
        attributes.push(Attribute { key: key.to_owned(), value: value.to_owned() });
        Response { attributes }
    }
}

impl Default for Response {
    /// A response with no observations.
    fn default() -> (r: Response)
        ensures
            r.attributes@.len() == 0,
    {
        Response::new()
    }
}

} // verus!
