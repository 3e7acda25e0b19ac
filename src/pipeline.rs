use vstd::prelude::*;
use vstd::string::StringExecFns;

use crate::model::{PaperRecord, Root, SlackMessage};
use crate::publisher::{publish_outcome, slack_message};
use crate::status::{error_of_status, error_text, CallError, STATUS_OK, STATUS_TOO_MANY_REQUESTS, STATUS_UNAUTHORIZED};
use crate::translator::translation_outcome;

verus! {

/// Offset of the first search result asked for.
pub const SEARCH_START: i32 = 0;

/// How many search results are asked for.
pub const SEARCH_MAX_RESULTS: i32 = 10;

/// The line printed for an item that was posted.
pub const POSTED_LINE: &'static str = "🎉 Successfully posted to Slack";

/// The settings of one run, read once at startup.
pub struct Config {
    pub search_query: String,
    pub openai_key: String,
    pub slack_token: String,
    pub slack_channel: String,
}

impl Config {
    pub fn new(search_query: String, openai_key: String, slack_token: String, slack_channel: String) -> (r: Self)
        ensures
            r.search_query == search_query,
            r.openai_key == openai_key,
            r.slack_token == slack_token,
            r.slack_channel == slack_channel,
    {
        Config { search_query, openai_key, slack_token, slack_channel }
    }
}

/// A search of the paper index: the newest submissions first.
pub struct SearchParams {
    pub query: String,
    pub start: i32,
    pub max_results: i32,
    pub sort_by: String,
    pub sort_order: String,
}

/// The search made for `query`.
pub fn search_params(query: &String) -> (r: SearchParams)
    ensures
        r.query == *query,
        r.start == SEARCH_START,
        r.max_results == SEARCH_MAX_RESULTS,
        r.sort_by@ == "submittedDate"@,
        r.sort_order@ == "descending"@,
{
    SearchParams {
        query: query.clone(),
        start: SEARCH_START,
        max_results: SEARCH_MAX_RESULTS,
        sort_by: String::from_str("submittedDate"),
        sort_order: String::from_str("descending"),
    }
}

/// What is posted for one item: its translation, or nothing where the
/// translation failed, so that the item is skipped and the run goes on.
pub fn plan_post(translation: Result<String, CallError>, channel: &String) -> (r: Option<SlackMessage>)
    ensures
        match translation {
            Ok(text) => r is Some && r->Some_0.channel == *channel && r->Some_0.text == text,
            Err(_) => r is None,
        },
{
    match translation {
        Ok(text) => Some(slack_message(channel, text)),
        Err(_) => None,
    }
}

/// The line printed for one item: the success marker, or the error's text.
pub fn report_line(outcome: &Result<String, CallError>) -> (r: String)
    ensures
        match *outcome {
            Ok(_) => r@ == POSTED_LINE@,
            Err(e) => r@ == error_text(e),
        },
{
    match outcome {
        Ok(_) => String::from_str(POSTED_LINE),
        Err(e) => e.message(),
    }
}

/// Both services' answers are read alike: whatever the body, 401 is an
/// authorization error, 429 a rate-limit error, and any other status but 200
/// an unexpected status that keeps the code.
pub proof fn status_read_alike(status: u16, body: Option<Root>, paper: PaperRecord, posted: Seq<char>)
    requires
        status != STATUS_OK,
    ensures
        translation_outcome(status, body, paper) == Err::<Seq<char>, CallError>(error_of_status(status)),
        publish_outcome(status, posted) == Err::<Seq<char>, CallError>(error_of_status(status)),
        status == STATUS_UNAUTHORIZED ==> error_of_status(status) == CallError::Authorization,
        status == STATUS_TOO_MANY_REQUESTS ==> error_of_status(status) == CallError::RateLimit,
        status != STATUS_UNAUTHORIZED && status != STATUS_TOO_MANY_REQUESTS ==> error_of_status(status)
            == CallError::UnexpectedStatus(status),
{
}

} // verus!
