//! The requests of the HTTP interface and the texts its handlers make of
//! them. The server itself is run by the caller.
use vstd::prelude::*;
use crate::text::{concat2, concat3};
use crate::vectors::{i64_to_dec, signed_dec};

verus! {

/// A chat request: the query and, optionally, the session it continues.
#[derive(Debug, Clone)]
pub struct ChatRequest {
    pub query: String,
    pub session_id: Option<String>,
}

/// A request to point a unit at another model file.
#[derive(Debug, Clone)]
pub struct HotSwapRequest {
    pub unit_name: String,
    pub model_path: String,
}

/// A user's rating of an answer, with an optional comment.
#[derive(Debug, Clone)]
pub struct FeedbackRequest {
    pub rating: i32,
    pub comment: Option<String>,
}

impl ChatRequest {
    /// The session the request runs in: the one it names, or a new one
    /// named after the second `now` of the clock.
    pub fn session(&self, now: i64) -> (s: String)
        ensures
            s@ == match self.session_id {
                Some(id) => id@,
                None => "session-"@ + signed_dec(now as int),
            },
    {
        match &self.session_id {
            Some(id) => id.clone(),
            None => {
                let n = i64_to_dec(now);
                concat2("session-", n.as_str())
            },
        }
    }
}

/// The key under which an answer of session `session_id` is stored, at
/// nanosecond `nanos` of the clock.
pub fn history_key(session_id: &str, nanos: i64) -> (k: String)
    ensures
        k@ == session_id@ + ":"@ + signed_dec(nanos as int),
{
    let n = i64_to_dec(nanos);
    concat3(session_id, ":", n.as_str())
}

/// The content of the error event of a failed query.
pub fn execution_error_event(error: &str) -> (s: String)
    ensures
        s@ == "MAGI Execution Error: "@ + error@,
{
    concat2("MAGI Execution Error: ", error)
}

} // verus!
