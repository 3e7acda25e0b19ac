use vstd::prelude::*;
use vstd::string::StringExecFns;

use crate::model::{Body, Message, PaperRecord, Root};
use crate::status::{classify_status, error_of_status, result_view, CallError, STATUS_OK};

verus! {

/// The chat model that is asked for the translation.
pub const MODEL: &'static str = "gpt-3.5-turbo";

/// The instruction that asks for a Japanese translation in a fixed layout.
pub const SYSTEM_PROMPT: &'static str = "与えられた英語の論文を日本語に訳し、以下のフォーマットで出力してください。\n    ```\n    タイトル:\n    タイトルの日本語訳\n\n    概要:\n    概要の日本語訳\n    ```\n    ";

/// The `Authorization` header value for a bearer credential.
pub open spec fn bearer_text(token: Seq<char>) -> Seq<char> {
    "Bearer "@ + token
}

/// The user message: the paper's title and summary behind their labels.
pub open spec fn user_prompt_text(title: Seq<char>, summary: Seq<char>) -> Seq<char> {
    "title: "@ + title + "\nsummary: "@ + summary
}

/// What is posted for a translated paper: publication date, pdf link, title
/// and the translation, each on a line of its own.
pub open spec fn translation_text(paper: PaperRecord, content: Seq<char>) -> Seq<char> {
    "発行日: "@ + paper.published@ + "\n"@ + paper.pdf_url@ + "\n"@ + paper.title@ + "\n"@
        + content + "\n"@
}

/// `body` is a chat request for `paper`: the fixed model, the system
/// instruction, then the user message.
pub open spec fn is_request_for(body: Body, paper: PaperRecord) -> bool {
    &&& body.model@ == MODEL@
    &&& body.messages@.len() == 2
    &&& body.messages@[0].role@ == "system"@
    &&& body.messages@[0].content@ == SYSTEM_PROMPT@
    &&& body.messages@[1].role@ == "user"@
    &&& body.messages@[1].content@ == user_prompt_text(paper.title@, paper.summary@)
}

/// What a translation call comes to, given the answer's status and its body
/// (`None` where the body did not parse as a chat completion).
pub open spec fn translation_outcome(status: u16, body: Option<Root>, paper: PaperRecord) -> Result<
    Seq<char>,
    CallError,
> {
    if status != STATUS_OK {
        Err(error_of_status(status))
    } else {
        match body {
            Some(root) => if root.choices@.len() > 0 {
                Ok(translation_text(paper, root.choices@[0].message.content@))
            } else {
                Err(CallError::MalformedResponse)
            },
            None => Err(CallError::MalformedResponse),
        }
    }
}

/// The `Authorization` header value for `token`.
pub fn bearer(token: &str) -> (r: String)
    ensures
        r@ == bearer_text(token@),
{
    String::from_str("Bearer ").concat(token)
}

/// The user message for `paper`.
pub fn user_prompt(paper: &PaperRecord) -> (r: String)
    ensures
        r@ == user_prompt_text(paper.title@, paper.summary@),
{
    let r = String::from_str("title: ");
    let r = r.concat(paper.title.as_str());
    let r = r.concat("\nsummary: ");
    r.concat(paper.summary.as_str())
}

/// The chat request that asks for the translation of `paper`.
pub fn build_request(paper: &PaperRecord) -> (r: Body)
    ensures
        is_request_for(r, *paper),
{
    let system = Message { role: String::from_str("system"), content: String::from_str(SYSTEM_PROMPT) };
    let user = Message { role: String::from_str("user"), content: user_prompt(paper) };
    let mut messages: Vec<Message> = Vec::new();
    messages.push(system);
    messages.push(user);
    Body { model: String::from_str(MODEL), messages }
}

/// The text posted for `paper` once `content` is its translation.
pub fn format_translation(paper: &PaperRecord, content: &String) -> (r: String)
    ensures
        r@ == translation_text(*paper, content@),
{
    let r = String::from_str("発行日: ");
    let r = r.concat(paper.published.as_str());
    let r = r.concat("\n");
    let r = r.concat(paper.pdf_url.as_str());
    let r = r.concat("\n");
    let r = r.concat(paper.title.as_str());
    let r = r.concat("\n");
    let r = r.concat(content.as_str());
    r.concat("\n")
}

/// Reads the answer to a translation request: on 200 the first choice's
/// content is formatted for posting; a body that did not parse or holds no
/// choice is malformed; any other status is classified.
pub fn read_translation(status: u16, body: &Option<Root>, paper: &PaperRecord) -> (r: Result<
    String,
    CallError,
>)
    ensures
        result_view(r) == translation_outcome(status, *body, *paper),
{
    match classify_status(status) {
        Err(e) => Err(e),
        Ok(()) => match body {
            Some(root) => if root.choices.len() > 0 {
                Ok(format_translation(paper, &root.choices[0].message.content))
            } else {
                Err(CallError::MalformedResponse)
            },
            None => Err(CallError::MalformedResponse),
        },
    }
}

/// A 200 answer with at least one choice yields the publication date, the pdf
/// link, the title and the first choice's content, each on a line of its own.
pub proof fn answered_translation_lines(paper: PaperRecord, root: Root)
    requires
        root.choices@.len() > 0,
    ensures
        translation_outcome(STATUS_OK, Some(root), paper) == Ok::<Seq<char>, CallError>(
            seq!['発', '行', '日', ':', ' '] + paper.published@ + seq!['\n'] + paper.pdf_url@ + seq![
                '\n',
            ] + paper.title@ + seq!['\n'] + root.choices@[0].message.content@ + seq!['\n'],
        ),
{
    reveal_strlit("発行日: ");
    reveal_strlit("\n");
    assert("発行日: "@ =~= seq!['発', '行', '日', ':', ' ']);
    assert("\n"@ =~= seq!['\n']);
}

/// A 200 answer without any choice is malformed, as is one whose body did not
/// parse.
pub proof fn answer_without_choice_malformed(paper: PaperRecord, root: Root)
    requires
        root.choices@.len() == 0,
    ensures
        translation_outcome(STATUS_OK, Some(root), paper) == Err::<Seq<char>, CallError>(
            CallError::MalformedResponse,
        ),
        translation_outcome(STATUS_OK, None, paper) == Err::<Seq<char>, CallError>(
            CallError::MalformedResponse,
        ),
{
}

} // verus!
