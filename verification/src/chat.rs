//! Data model of the chat-completion interface: the messages a request
//! carries, the decoded response shape, and the client's address and
//! credential. The transport itself is outside this library; what is
//! modeled here is everything the pipeline's logic reads or builds.
use vstd::prelude::*;

verus! {

/// One message of a chat-completion conversation.
pub struct InputMessage {
    pub role: String,
    pub content: String,
}

/// The mathematical value of an `InputMessage`.
#[verifier::ext_equal]
pub struct MessageView {
    pub role: Seq<char>,
    pub content: Seq<char>,
}

impl View for InputMessage {
    type V = MessageView;

    open spec fn view(&self) -> MessageView {
        MessageView { role: self.role@, content: self.content@ }
    }
}

impl DeepView for InputMessage {
    type V = MessageView;

    open spec fn deep_view(&self) -> MessageView {
        self.view()
    }
}

impl InputMessage {
    /// A message carrying the system prompt.
    pub fn system(content: String) -> (m: Self)
        ensures
            m.role@ == "system"@,
            m.content@ == content@,
    {
        InputMessage { role: "system".to_owned(), content }
    }

    /// A message carrying the user's utterance.
    pub fn user(content: String) -> (m: Self)
        ensures
            m.role@ == "user"@,
            m.content@ == content@,
    {
        InputMessage { role: "user".to_owned(), content }
    }

    /// A message carrying an earlier model answer.
    pub fn assistant(content: String) -> (m: Self)
        ensures
            m.role@ == "assistant"@,
            m.content@ == content@,
    {
        InputMessage { role: "assistant".to_owned(), content }
    }

    /// A copy of this message.
    pub fn duplicate(&self) -> (m: Self)
        ensures
            m.role@ == self.role@,
            m.content@ == self.content@,
    {
        InputMessage { role: self.role.clone(), content: self.content.clone() }
    }
}

/// A typed piece of content.
pub struct Content {
    pub content_type: String,
    pub body: String,
}

impl Content {
    /// Plain-text content.
    pub fn text(content: String) -> (c: Self)
        ensures
            c.content_type@ == "text/plain"@,
            c.body@ == content@,
    {
        Content { content_type: "text/plain".to_owned(), body: content }
    }
}

/// One answer the service returned.
pub struct Message {
    pub content: String,
    pub role: String,
}

/// One completion choice of a response.
pub struct Choice {
    pub finish_reason: String,
    pub index: i64,
    pub message: Message,
}

/// Token accounting of one response.
pub struct PromptTokensDetails {
    pub cached_tokens: i64,
}

/// Token accounting of one response.
pub struct Usage {
    pub prompt_tokens: i64,
    pub completion_tokens: i64,
    pub total_tokens: i64,
    pub prompt_tokens_details: PromptTokensDetails,
}

/// A decoded chat-completion response; the serving-time measurements the
/// wire format also carries stay with the transport layer.
pub struct ChatResponse {
    pub id: String,
    pub choices: Vec<Choice>,
    pub created: i64,
    pub model: String,
    pub system_fingerprint: String,
    pub object: String,
    pub usage: Usage,
}

impl ChatResponse {
    /// The text of the first completion choice, which is what the
    /// pipeline stores and prints; `None` when the response carried no
    /// choice at all.
    pub fn first_content(&self) -> (r: Option<&String>)
        ensures
            match r {
                Some(t) => self.choices@.len() > 0 && t@ == self.choices@[0].message.content@,
                None => self.choices@.len() == 0,
            },
    {
        if self.choices.len() > 0 {
            Some(&self.choices[0].message.content)
        } else {
            None
        }
    }
}

/// A chat-completion request as this library builds it; the transport
/// layer attaches the sampling parameters before sending.
pub struct CompletionRequest {
    pub model: String,
    pub messages: Vec<InputMessage>,
    pub stream: bool,
    pub max_tokens: usize,
}

/// The address and credential of the chat-completion endpoint.
pub struct OpenAIClient {
    api_key: String,
    base_url: String,
}

impl OpenAIClient {
    /// The bearer credential the client was built with.
    pub closed spec fn spec_api_key(&self) -> Seq<char> {
        self.api_key@
    }

    /// The endpoint address the client was built with.
    pub closed spec fn spec_base_url(&self) -> Seq<char> {
        self.base_url@
    }

    /// A client for the given endpoint and credential.
    pub fn new(api_key: String, url: String) -> (c: Self)
        ensures
            c.spec_api_key() == api_key@,
            c.spec_base_url() == url@,
    {
        OpenAIClient { api_key, base_url: url }
    }

    /// The bearer credential, for the transport layer.
    pub fn api_key(&self) -> (r: &String)
        ensures
            r@ == self.spec_api_key(),
    {
        &self.api_key
    }

    /// The endpoint address, for the transport layer.
    pub fn base_url(&self) -> (r: &String)
        ensures
            r@ == self.spec_base_url(),
    {
        &self.base_url
    }
}

} // verus!
