//! The edges of a request: its settings on the way in, the text of a
//! failure on the way out.

use crate::pipeline::{ClientError, Failure, FailureModel};
use vstd::prelude::*;

verus! {

/// Whether the value of a request's `no_cache` setting asks to go past the
/// cache: only `true` and `1` do; any other value, or none, does not.
pub open spec fn asks_bypass(setting: Option<Seq<char>>) -> bool {
    setting matches Some(v) && (v == "true"@ || v == "1"@)
}

/// Whether a request's `no_cache` setting asks to go past the cache.
pub fn bypass_requested(setting: Option<&str>) -> (bypass: bool)
    ensures
        bypass == asks_bypass(
            match setting {
                Some(v) => Some(v@),
                None => None,
            },
        ),
{
    match setting {
        Some(v) => {
            let given = String::from_str(v);
            given == String::from_str("true") || given == String::from_str("1")
        },
        None => false,
    }
}

/// What a failure says of itself.
pub open spec fn failure_text(failure: FailureModel) -> Seq<char> {
    match failure {
        FailureModel::UnsafeKey => "the key cannot name a cache file"@,
        FailureModel::Client(error) => error.text(),
        FailureModel::CacheWrite(message) => message,
        FailureModel::Unexpected => "the request received an event out of turn"@,
    }
}

/// The text that answers a failed request.
pub open spec fn error_text(failure: FailureModel) -> Seq<char> {
    "Error: "@ + failure_text(failure)
}

/// The text that answers a failed request: `Error: `, then what the failure
/// says of itself.
pub fn error_reply(failure: &Failure) -> (reply: String)
    ensures
        reply@ == error_text(failure@),
{
    let head = String::from_str("Error: ");
    match failure {
        Failure::UnsafeKey => head.concat("the key cannot name a cache file"),
        Failure::Client(error) => match error {
            ClientError::Transport { message, .. } => head.concat(
                message.as_str(),
            ),
            ClientError::Other { message } => head.concat(message.as_str()),
        },
        Failure::CacheWrite(message) => head.concat(message.as_str()),
        Failure::Unexpected => head.concat("the request received an event out of turn"),
    }
}

} // verus!
