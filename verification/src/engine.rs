//! The extraction engine: one session per `extract` call. The engine
//! compiles the target type's schema once, sends the conversation and a
//! single mandatory tool to the transport, classifies the reply, decodes
//! and validates the candidate value, and on every retryable failure
//! appends one corrective feedback message to the conversation before
//! trying again, until the attempt budget is spent.

use vstd::prelude::*;
use vstd::string::*;

use crate::descriptor::{InstructMacro, InstructMacroResult};
use crate::schema::{get_response_model, FunctionParameters, SchemaError};

verus! {

/// The speaker of one conversation turn.
#[derive(Debug, Clone, Copy, PartialEq, Eq, Structural)]
pub enum Role {
    System,
    User,
    Assistant,
}

/// One turn of the conversation sent to the model.
#[derive(Debug, Clone, PartialEq)]
pub struct Message {
    pub role: Role,
    pub content: String,
}

/// The mathematical image of a [`Message`].
pub struct MessageV {
    pub role: Role,
    pub content: Seq<char>,
}

impl View for Message {
    type V = MessageV;

    open spec fn view(&self) -> MessageV {
        MessageV { role: self.role, content: self.content@ }
    }
}

impl DeepView for Message {
    type V = MessageV;

    open spec fn deep_view(&self) -> MessageV {
        self.view()
    }
}

/// One tool invocation found in the model's reply; `arguments` is the
/// JSON-encoded payload.
#[derive(Debug, Clone, PartialEq)]
pub struct ToolCall {
    pub name: String,
    pub arguments: String,
}

/// The mathematical image of a [`ToolCall`].
pub struct ToolCallV {
    pub name: Seq<char>,
    pub arguments: Seq<char>,
}

impl View for ToolCall {
    type V = ToolCallV;

    open spec fn view(&self) -> ToolCallV {
        ToolCallV { name: self.name@, arguments: self.arguments@ }
    }
}

impl DeepView for ToolCall {
    type V = ToolCallV;

    open spec fn deep_view(&self) -> ToolCallV {
        self.view()
    }
}

/// The model's reply, as the transport hands it back: the tool calls it
/// made, or a plain-text answer.
#[derive(Debug, PartialEq)]
pub enum TransportReply {
    ToolCalls(Vec<ToolCall>),
    Text(String),
}

/// The mathematical image of a [`TransportReply`].
pub enum TransportReplyV {
    ToolCalls(Seq<ToolCallV>),
    Text(Seq<char>),
}

impl View for TransportReply {
    type V = TransportReplyV;

    open spec fn view(&self) -> TransportReplyV {
        match self {
            TransportReply::ToolCalls(calls) => TransportReplyV::ToolCalls(calls.deep_view()),
            TransportReply::Text(t) => TransportReplyV::Text(t@),
        }
    }
}

/// The single tool handed to the transport, with a compiled schema as its
/// parameters. The transport must instruct the provider that calling this
/// tool is mandatory.
#[derive(Debug, PartialEq)]
pub struct ToolSpec {
    pub name: String,
    pub description: String,
    pub parameters: FunctionParameters,
}

/// The transport collaborator: sends one conversation and the tool
/// specification to the model provider and hands back the reply, or an
/// error when the provider could not be reached at all.
///
/// Implementations are supplied by the caller; the engine states nothing
/// about them and handles every possible reply.
pub trait Transport {
    fn send(&mut self, conversation: &Vec<Message>, tool: &ToolSpec) -> Result<
        TransportReply,
        String,
    >;
}

/// Why an extraction gave up.
#[derive(Debug, PartialEq)]
pub enum ExtractError {
    /// Schema compilation failed on a leaf type with no wire mapping: a
    /// program bug, surfaced at once and never retried.
    UnsupportedType(String),
    /// The target type describes itself as a bare enumeration, not a
    /// record: a program bug, surfaced at once and never retried.
    NotARecord,
    /// The transport could not reach the provider at all; surfaced at
    /// once, retrying such failures is the transport's own business.
    Transport(String),
    /// Every attempt was spent; carries the final diagnostic trail.
    ExtractionFailed(String),
}

/// Feedback sent after a reply whose tool-call count was not one.
pub open spec fn spec_wrong_count_feedback() -> Seq<char> {
    "Unexpected number of tool calls: please generate exactly one tool call."@
}

/// Feedback sent after a plain-text reply with no tool call.
pub open spec fn spec_no_tool_feedback() -> Seq<char> {
    "Please make sure to generate a response and call a tool"@
}

/// Feedback sent after a payload that did not decode, quoting the
/// decoder's complaint and the raw payload so the model can correct
/// itself.
pub open spec fn spec_decode_feedback(detail: Seq<char>, raw: Seq<char>) -> Seq<char> {
    "Invalid response from tool call: "@ + detail + ". Tool call: "@ + raw
}

/// Feedback sent after the caller's validator rejected a decoded value.
pub open spec fn spec_validation_feedback(reason: Seq<char>) -> Seq<char> {
    "Validation Error: "@ + reason + ". Please fix the issue"@
}

/// The shapes a recorded feedback turn can take: one of the two fixed
/// reply-shape complaints, a decode complaint quoting the raw payload, or
/// a validation complaint quoting the validator's reason.
pub open spec fn spec_retryable_feedback(f: Seq<char>) -> bool {
    ||| f == spec_wrong_count_feedback()
    ||| f == spec_no_tool_feedback()
    ||| exists|d: Seq<char>, raw: Seq<char>| f == #[trigger] spec_decode_feedback(d, raw)
    ||| exists|v: Seq<char>| f == #[trigger] spec_validation_feedback(v)
}

/// The final diagnostic once the attempt budget is spent, wrapping the
/// last feedback if there was any attempt at all.
pub open spec fn spec_exhausted_message(last: Option<Seq<char>>) -> Seq<char> {
    match last {
        Some(e) => "Unable to derive model: "@ + e,
        None => "Unable to derive model: no attempts were permitted"@,
    }
}

/// Splits one tool-call reply into its argument payload; any other reply
/// becomes the exact corrective feedback for its failure class.
pub open spec fn spec_classify(reply: TransportReplyV) -> Result<Seq<char>, Seq<char>> {
    match reply {
        TransportReplyV::ToolCalls(calls) => if calls.len() == 1 {
            Ok(calls[0].arguments)
        } else {
            Err(spec_wrong_count_feedback())
        },
        TransportReplyV::Text(_) => Err(spec_no_tool_feedback()),
    }
}

/// Concatenates a prefix, a body and a suffix.
fn sandwich(prefix: &str, body: &str, suffix: &str) -> (r: String)
    ensures
        r@ == prefix@ + body@ + suffix@,
{
    let mut s = String::from_str(prefix);
    s.append(body);
    s.append(suffix);
    s
}

/// Concatenates a prefix and a body.
fn prefixed(prefix: &str, body: &str) -> (r: String)
    ensures
        r@ == prefix@ + body@,
{
    let mut s = String::from_str(prefix);
    s.append(body);
    s
}

/// Checks that the reply is exactly one tool invocation and hands back
/// its raw argument payload; any other shape yields the corrective
/// feedback for that failure class instead.
pub fn classify_reply(reply: &TransportReply) -> (r: Result<String, String>)
    ensures
        match spec_classify(reply@) {
            Ok(a) => r matches Ok(s) && s@ == a,
            Err(f) => r matches Err(s) && s@ == f,
        },
{
    match reply {
        TransportReply::ToolCalls(calls) => {
            if calls.len() == 1 {
                let call = &calls[0];
                Ok(call.arguments.clone())
            } else {
                Err(
                    String::from_str(
                        "Unexpected number of tool calls: please generate exactly one tool call.",
                    ),
                )
            }
        },
        TransportReply::Text(_) => Err(
            String::from_str("Please make sure to generate a response and call a tool"),
        ),
    }
}

/// One extraction session: the conversation so far, the attempts that are
/// left, and the last diagnostic message.
pub struct ExtractionSession {
    pub conversation: Vec<Message>,
    pub attempts_remaining: u64,
    pub last_error: Option<String>,
}

/// How a failed attempt transforms a session: one user-role feedback turn
/// with content `f` is appended (nothing is ever discarded), one attempt
/// is consumed, and `f` becomes the last diagnostic.
pub open spec fn spec_failed_step(
    pre: ExtractionSession,
    post: ExtractionSession,
    f: Seq<char>,
) -> bool {
    &&& post.attempts_remaining == pre.attempts_remaining - 1
    &&& exists|m: Message|
        post.conversation@ == pre.conversation@.push(m) && m.role == Role::User && m.content@ == f
    &&& post.last_error matches Some(e) && e@ == f
}

impl ExtractionSession {
    /// Opens a session on the caller's prompt with a fresh attempt
    /// budget.
    pub fn new(seed: Vec<Message>, max_attempts: u64) -> (s: Self)
        ensures
            s.conversation == seed,
            s.attempts_remaining == max_attempts,
            s.last_error is None,
    {
        ExtractionSession { conversation: seed, attempts_remaining: max_attempts, last_error: None }
    }

    /// Records one failed attempt: appends the feedback as a user turn,
    /// consumes one attempt and keeps the feedback as the last
    /// diagnostic.
    pub fn record_failure(&mut self, feedback: String)
        requires
            old(self).attempts_remaining > 0,
        ensures
            spec_failed_step(*old(self), *final(self), feedback@),
            final(self).conversation@ == old(self).conversation@.push(
                Message { role: Role::User, content: feedback },
            ),
    {
        let content = feedback.clone();
        self.conversation.push(Message { role: Role::User, content: feedback });
        self.attempts_remaining = self.attempts_remaining - 1;
        self.last_error = Some(content);
    }

    /// The aggregate failure returned once the budget is spent, wrapping
    /// the last diagnostic.
    pub fn failure_error(&self) -> (r: ExtractError)
        ensures
            r matches ExtractError::ExtractionFailed(m) && m@ == spec_exhausted_message(
                match self.last_error {
                    Some(e) => Some(e@),
                    None => None,
                },
            ),
    {
        match &self.last_error {
            Some(e) => ExtractError::ExtractionFailed(
                prefixed("Unable to derive model: ", e.as_str()),
            ),
            None => ExtractError::ExtractionFailed(
                String::from_str("Unable to derive model: no attempts were permitted"),
            ),
        }
    }
}

/// Relies on serde_json::from_str: decodes a JSON document into any type
/// through that type's Deserialize implementation. Which documents decode
/// is decided by the implementation, so nothing is promised of the
/// outcome; every caller handles both results.
#[verifier::external_body]
fn decode_json<T: serde::de::DeserializeOwned>(s: &str) -> Result<T, String> {
    serde_json::from_str::<T>(s).map_err(|e| format!("{}", e))
}

/// Runs one attempt on a reply that has already been received: classify,
/// decode, validate. On success the session is untouched and the value
/// handed back; on any retryable failure exactly one feedback turn of the
/// documented shape is recorded and one attempt consumed: the exact
/// reply-shape complaint for an ill-shaped reply, and for a single tool
/// call either a decode complaint quoting the raw payload or a validation
/// complaint quoting the validator's reason.
fn handle_attempt<T: InstructMacro + serde::de::DeserializeOwned>(
    session: &mut ExtractionSession,
    reply: &TransportReply,
) -> (r: Option<T>)
    requires
        old(session).attempts_remaining > 0,
    ensures
        r is Some ==> *final(session) == *old(session) && (reply@ matches TransportReplyV::ToolCalls(
            calls,
        ) && calls.len() == 1),
        r is None ==> exists|f: Seq<char>|
            #[trigger] spec_failed_step(*old(session), *final(session), f)
                && spec_retryable_feedback(f),
        match spec_classify(reply@) {
            Err(f) => r is None && spec_failed_step(*old(session), *final(session), f),
            Ok(raw) => r is None ==> ((exists|d: Seq<char>|
                spec_failed_step(
                    *old(session),
                    *final(session),
                    #[trigger] spec_decode_feedback(d, raw),
                )) || (exists|v: Seq<char>|
                spec_failed_step(
                    *old(session),
                    *final(session),
                    #[trigger] spec_validation_feedback(v),
                ))),
        },
{
    let arguments = match classify_reply(reply) {
        Ok(a) => a,
        Err(feedback) => {
            proof {
                assert(spec_retryable_feedback(feedback@));
            }
            session.record_failure(feedback);
            return None;
        },
    };
    let value: T = match decode_json::<T>(arguments.as_str()) {
        Ok(v) => v,
        Err(detail) => {
            let mut feedback = prefixed("Invalid response from tool call: ", detail.as_str());
            feedback.append(". Tool call: ");
            feedback.append(arguments.as_str());
            proof {
                assert(feedback@ == spec_decode_feedback(detail@, arguments@));
                assert(arguments@ == spec_classify(reply@)->Ok_0);
                assert(spec_retryable_feedback(feedback@));
            }
            session.record_failure(feedback);
            return None;
        },
    };
    match value.validate() {
        Ok(_) => Some(value),
        Err(reason) => {
            let feedback = sandwich(
                "Validation Error: ",
                reason.as_str(),
                ". Please fix the issue",
            );
            proof {
                assert(feedback@ == spec_validation_feedback(reason@));
                assert(spec_retryable_feedback(feedback@));
            }
            session.record_failure(feedback);
            None
        },
    }
}

/// Extracts a `T` from the model: compiles `T`'s schema, then sends the
/// conversation with the single mandatory tool, classifies, decodes and
/// validates the reply, feeding every retryable failure back into the
/// conversation, until a value passes or `max_attempts` attempts are
/// spent. Descriptor bugs and transport failures surface at once. An
/// exhausted session reports `spec_exhausted_message`: around the last
/// recorded feedback, which has one of the documented retryable shapes,
/// or around no feedback at all where no attempt was permitted.
pub fn extract<T: InstructMacro + serde::de::DeserializeOwned, Tr: Transport>(
    transport: &mut Tr,
    seed: Vec<Message>,
    max_attempts: u64,
) -> (r: Result<T, ExtractError>)
    ensures
        r is Ok ==> max_attempts > 0,
        max_attempts == 0 ==> (r matches Err(e) && (e matches ExtractError::NotARecord
            || e matches ExtractError::UnsupportedType(_) || (
        e matches ExtractError::ExtractionFailed(m) && m@ == spec_exhausted_message(None)))),
        match r {
            Err(ExtractError::ExtractionFailed(m)) => (max_attempts == 0 && m@
                == spec_exhausted_message(None)) || (max_attempts > 0 && exists|f: Seq<char>|
                #[trigger] spec_retryable_feedback(f) && m@ == spec_exhausted_message(Some(f))),
            _ => true,
        },
{
    let info = match T::get_info() {
        InstructMacroResult::Struct(info) => info,
        InstructMacroResult::Enum(_) => {
            return Err(ExtractError::NotARecord);
        },
    };
    let parameters = match get_response_model(&info) {
        Ok(p) => p,
        Err(SchemaError::UnsupportedType(u)) => {
            return Err(ExtractError::UnsupportedType(u));
        },
    };
    let tool = ToolSpec {
        name: info.name,
        description: info.description,
        parameters,
    };
    let mut session = ExtractionSession::new(seed, max_attempts);
    while session.attempts_remaining > 0
        invariant
            session.attempts_remaining <= max_attempts,
            session.attempts_remaining == max_attempts ==> session.last_error is None,
            session.attempts_remaining < max_attempts ==> (session.last_error matches Some(e)
                && spec_retryable_feedback(e@)),
        decreases session.attempts_remaining,
    {
        let reply = match transport.send(&session.conversation, &tool) {
            Ok(rep) => rep,
            Err(e) => {
                return Err(ExtractError::Transport(e));
            },
        };
        match handle_attempt::<T>(&mut session, &reply) {
            Some(v) => {
                return Ok(v);
            },
            None => {},
        }
    }
    Err(session.failure_error())
}

} // verus!
