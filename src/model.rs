use vstd::prelude::*;

verus! {

/// One paper returned by the paper index.
#[derive(Debug, PartialEq, Eq)]
pub struct PaperRecord {
    pub title: String,
    pub summary: String,
    pub published: String,
    pub pdf_url: String,
}

impl PaperRecord {
    pub fn new(title: String, summary: String, published: String, pdf_url: String) -> (r: Self)
        ensures
            r.title == title,
            r.summary == summary,
            r.published == published,
            r.pdf_url == pdf_url,
    {
        PaperRecord { title, summary, published, pdf_url }
    }

    /// A field-for-field copy.
    pub fn duplicate(&self) -> (r: Self)
        ensures
            r == *self,
    {
        PaperRecord {
            title: self.title.clone(),
            summary: self.summary.clone(),
            published: self.published.clone(),
            pdf_url: self.pdf_url.clone(),
        }
    }
}

/// Token counts reported with a chat completion.
#[derive(Debug, PartialEq, Eq)]
pub struct Usage {
    pub prompt_tokens: i64,
    pub completion_tokens: i64,
    pub total_tokens: i64,
}

/// One role-tagged message of a chat request or answer.
#[derive(Debug, PartialEq, Eq)]
pub struct Message {
    pub role: String,
    pub content: String,
}

/// One alternative answer of a chat completion.
#[derive(Debug, PartialEq, Eq)]
pub struct Choice {
    pub message: Message,
    pub finish_reason: String,
    pub index: i64,
}

/// The body of a chat-completion answer.
#[derive(Debug, PartialEq, Eq)]
pub struct Root {
    pub id: String,
    pub object: String,
    pub created: i64,
    pub model: String,
    pub usage: Usage,
    pub choices: Vec<Choice>,
}

/// The body of a chat-completion request.
#[derive(Debug, PartialEq, Eq)]
pub struct Body {
    pub model: String,
    pub messages: Vec<Message>,
}

/// The payload that posts `text` to `channel`.
#[derive(Debug, PartialEq, Eq)]
pub struct SlackMessage {
    pub channel: String,
    pub text: String,
}

} // verus!
