use vstd::prelude::*;

use crate::model::SlackMessage;
use crate::status::{classify_status, result_view, status_outcome, CallError};

verus! {

/// What a post to the messaging service comes to: on 200 the answer's body
/// is passed through, any other status is classified.
pub open spec fn publish_outcome(status: u16, body: Seq<char>) -> Result<Seq<char>, CallError> {
    match status_outcome(status) {
        Ok(()) => Ok(body),
        Err(e) => Err(e),
    }
}

/// The payload that posts `text` to `channel`.
pub fn slack_message(channel: &String, text: String) -> (r: SlackMessage)
    ensures
        r.channel == *channel,
        r.text == text,
{
    SlackMessage { channel: channel.clone(), text }
}

/// Reads the answer to a post: 200 hands back the body, any other status is
/// classified.
pub fn read_publish(status: u16, body: String) -> (r: Result<String, CallError>)
    ensures
        result_view(r) == publish_outcome(status, body@),
{
    match classify_status(status) {
        Ok(()) => Ok(body),
        Err(e) => Err(e),
    }
}

} // verus!
