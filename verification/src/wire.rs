//! Plain value types mirroring the provider's chat-completion request and
//! response bodies, with the small pieces of logic around them: building
//! the fixed opening conversation of a request and picking the answer out
//! of a response. Serialization itself lives with the caller.

use vstd::prelude::*;
use vstd::string::*;

verus! {

/// A type that can pick itself out of a chat-completion response body.
///
/// Implementations are supplied by the caller, typically by taking the
/// answer text with [`response_content`] and decoding it; the library
/// states nothing about them.
pub trait InstructModel: Sized {
    /// Extracts a value of this type from the response, or says why it
    /// could not be done.
    fn extract_from_response(response: ChatCompletionResponse) -> Result<Self, String>;
}

/// A chat-completion request body: the model to use and the conversation
/// so far.
#[derive(Debug, Clone, PartialEq)]
pub struct ChatCompletionRequest {
    pub model: String,
    pub messages: Vec<ChatCompletionMessage>,
}

/// One conversation turn of a request or response body, with its role
/// spelled as the provider spells it.
#[derive(Debug, Clone, PartialEq)]
pub struct ChatCompletionMessage {
    pub role: String,
    pub content: String,
}

/// A chat-completion response body.
#[derive(Debug, Clone, PartialEq)]
pub struct ChatCompletionResponse {
    pub id: String,
    pub object: String,
    pub created: u64,
    pub model: String,
    pub choices: Vec<ChatCompletionChoice>,
    pub usage: ChatCompletionUsage,
}

/// One answer candidate of a response.
#[derive(Debug, Clone, PartialEq)]
pub struct ChatCompletionChoice {
    pub index: u32,
    pub message: ChatCompletionMessage,
    pub finish_reason: String,
}

/// The token accounting of a response.
#[derive(Debug, Clone, Copy, PartialEq, Eq, Structural)]
pub struct ChatCompletionUsage {
    pub prompt_tokens: u32,
    pub completion_tokens: u32,
    pub total_tokens: u32,
}

/// The fixed system instruction that opens every request built by
/// [`build_chat_request`].
pub open spec fn spec_system_instruction() -> Seq<char> {
    "You are a helpful assistant. Please respond with valid JSON for the shared struct."@
}

/// Builds a request whose conversation is the fixed system instruction
/// followed by the caller's prompt as a user turn.
pub fn build_chat_request(model: String, prompt: &str) -> (r: ChatCompletionRequest)
    ensures
        r.model == model,
        r.messages@.len() == 2,
        r.messages@[0].role@ == "system"@,
        r.messages@[0].content@ == spec_system_instruction(),
        r.messages@[1].role@ == "user"@,
        r.messages@[1].content@ == prompt@,
{
    let mut messages: Vec<ChatCompletionMessage> = Vec::new();
    messages.push(
        ChatCompletionMessage {
            role: String::from_str("system"),
            content: String::from_str(
                "You are a helpful assistant. Please respond with valid JSON for the shared struct.",
            ),
        },
    );
    messages.push(
        ChatCompletionMessage { role: String::from_str("user"), content: prompt.to_owned() },
    );
    ChatCompletionRequest { model, messages }
}

/// Picks the answer text out of a response: the first choice's message
/// content, or an error where the provider sent no choice at all.
pub fn response_content(response: &ChatCompletionResponse) -> (r: Result<String, String>)
    ensures
        response.choices@.len() == 0 ==> (r matches Err(e) && e@ == "No choices in response"@),
        response.choices@.len() > 0 ==> (r matches Ok(c) && c@
            == response.choices@[0].message.content@),
{
    if response.choices.len() == 0 {
        Err(String::from_str("No choices in response"))
    } else {
        let first = &response.choices[0];
        Ok(first.message.content.clone())
    }
}

} // verus!
