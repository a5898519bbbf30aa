//! The OpenAI-compatible request data, the prompt it renders to, and the decisions of the
//! chat and transcription pipelines around model resolution and streaming.

use vstd::prelude::*;

use crate::model::ModelError;
use crate::text::{trim, trimmed_of};

verus! {

/// One part of a user message's content.
#[derive(Debug)]
pub enum ContentPart {
    /// Text content.
    Text { text: String },
    /// An image, by URL, with an optional level of detail.
    ImageUrl { url: String, detail: Option<String> },
}

/// The function that an assistant asked to call.
#[derive(Debug)]
pub struct AssistantFunctionStub {
    pub name: String,
    pub arguments: String,
}

/// A tool call that an assistant made.
#[derive(Debug)]
pub struct AssistantToolCall {
    pub id: String,
    pub type_: String,
    pub function: AssistantFunctionStub,
}

/// The content of a user message: plain text, or a list of parts.
#[derive(Debug)]
pub enum UserContent {
    Text(String),
    Parts(Vec<ContentPart>),
}

/// One message of a chat conversation, by the role of its author.
#[derive(Debug)]
#[allow(inconsistent_fields)]
pub enum ChatMessage {
    System { content: Option<String>, name: Option<String> },
    User { content: UserContent, name: Option<String> },
    Assistant {
        content: Option<String>,
        name: Option<String>,
        tool_calls: Option<Vec<AssistantToolCall>>,
    },
    Tool { content: Option<String>, tool_call_id: String },
}

/// A chat conversation, in order.
#[derive(Debug)]
pub struct ChatMessages(pub Vec<ChatMessage>);

/// Token counts of a completion.
#[derive(Debug, PartialEq, Eq, Structural, Clone, Copy)]
pub struct ChatCompletionUsage {
    pub completion_tokens: u32,
    pub prompt_tokens: u32,
    pub total_tokens: u32,
}

/// The new content that one streamed chunk carries.
#[derive(Debug)]
pub struct ChatCompletionChunkDelta {
    pub content: Option<String>,
    pub role: Option<String>,
}

/// One choice of a streamed chunk.
#[derive(Debug)]
pub struct ChatCompletionChunkChoice {
    pub delta: ChatCompletionChunkDelta,
    pub finish_reason: Option<String>,
    pub index: u32,
}

/// One choice of a whole (not streamed) completion.
#[derive(Debug)]
pub struct ChatCompletionChoice {
    pub message: ChatMessage,
    pub finish_reason: Option<String>,
    pub index: i32,
}

/// A whole (not streamed) chat completion.
#[derive(Debug)]
pub struct ChatCompletion {
    pub id: String,
    pub choices: Vec<ChatCompletionChoice>,
    pub created: i64,
    pub model: String,
    pub system_fingerprint: String,
    pub object: String,
    pub usage: ChatCompletionUsage,
}

/// One streamed event of a chat completion.
#[derive(Debug)]
pub struct ChatCompletionChunk {
    pub id: String,
    pub choices: Vec<ChatCompletionChunkChoice>,
    pub created: i64,
    pub model: String,
    pub system_fingerprint: String,
    pub object: String,
}

/// The ways in which a chat completion request can fail.
#[derive(Debug, PartialEq, Eq)]
pub enum ChatCompletionError {
    /// No usable model is configured, or it could not be preloaded.
    NoSuchModel { model_name: String },
    /// The model could not be fetched from the system.
    ProhibitedName { model_name: String, reason: String },
    /// An error occurred on the other side of a foreign function boundary.
    Ffi,
    /// The inference engine failed, with its error text.
    Endpoint(String),
}

/// The prompt text of one content part.
pub open spec fn part_text(p: ContentPart) -> Seq<char> {
    match p {
        ContentPart::Text { text } => text@,
        ContentPart::ImageUrl { url, detail } => match detail {
            Some(d) => "<IMAGE "@ + url@ + "> ("@ + d@ + ")"@,
            None => "<IMAGE "@ + url@ + ">"@,
        },
    }
}

/// The prompt text of a list of content parts, one after the other.
pub open spec fn parts_text(ps: Seq<ContentPart>) -> Seq<char>
    decreases ps.len(),
{
    if ps.len() == 0 {
        Seq::empty()
    } else {
        parts_text(ps.drop_last()) + part_text(ps.last())
    }
}

/// The prompt text of one message: a role tag and its content; a message without
/// content adds nothing.
pub open spec fn message_text(m: ChatMessage) -> Seq<char> {
    match m {
        ChatMessage::System { content: Some(d), .. } => "<|SYSTEM|>"@ + d@,
        ChatMessage::User { content: UserContent::Text(d), .. } => "<|USER|>"@ + d@,
        ChatMessage::User { content: UserContent::Parts(ps), .. } => "<|USER|>"@ + parts_text(
            ps@,
        ),
        ChatMessage::Assistant { content: Some(d), .. } => "<|ASSISTANT|>"@ + d@,
        ChatMessage::Tool { content: Some(d), .. } => "<|TOOL|>"@ + d@,
        _ => Seq::empty(),
    }
}

/// The prompt text of a conversation, one message after the other.
pub open spec fn messages_text(ms: Seq<ChatMessage>) -> Seq<char>
    decreases ms.len(),
{
    if ms.len() == 0 {
        Seq::empty()
    } else {
        messages_text(ms.drop_last()) + message_text(ms.last())
    }
}

impl ContentPart {
    /// The prompt text of this part.
    pub fn to_text(&self) -> (r: String)
        ensures
            r@ == part_text(*self),
    {
        match self {
            ContentPart::Text { text } => text.clone(),
            ContentPart::ImageUrl { url, detail } => {
                let mut s = String::from_str("<IMAGE ");
                s.append(url.as_str());
                match detail {
                    Some(d) => {
                        s.append("> (");
                        s.append(d.as_str());
                        s.append(")");
                    },
                    None => {
                        s.append(">");
                    },
                }
                s
            },
        }
    }
}

/// Appends the prompt text of `m` to `out`.
fn append_message(out: &mut String, m: &ChatMessage)
    ensures
        final(out)@ == old(out)@ + message_text(*m),
{
    let ghost start = out@;
    match m {
        ChatMessage::System { content: Some(data), .. } => {
            out.append("<|SYSTEM|>");
            out.append(data.as_str());
        },
        ChatMessage::User { content: UserContent::Text(data), .. } => {
            out.append("<|USER|>");
            out.append(data.as_str());
        },
        ChatMessage::User { content: UserContent::Parts(data), .. } => {
            out.append("<|USER|>");
            let ghost tagged = out@;
            let mut i: usize = 0;
            while i < data.len()
                invariant
                    i <= data.len(),
                    out@ == tagged + parts_text(data@.take(i as int)),
                decreases data.len() - i,
            {
                let t = data[i].to_text();
                out.append(t.as_str());
                assert(data@.take(i + 1).drop_last() =~= data@.take(i as int));
                i = i + 1;
            }
            assert(data@.take(i as int) =~= data@);
        },
        ChatMessage::Assistant { content: Some(data), .. } => {
            out.append("<|ASSISTANT|>");
            out.append(data.as_str());
        },
        ChatMessage::Tool { content: Some(data), .. } => {
            out.append("<|TOOL|>");
            out.append(data.as_str());
        },
        _ => {},
    }
    assert(out@ =~= start + message_text(*m));
}

impl ChatMessages {
    /// The prompt text of the conversation: each message's role tag and content, in order.
    pub fn to_text(&self) -> (r: String)
        ensures
            r@ == messages_text(self.0@),
    {
        let mut out = String::new();
        let mut i: usize = 0;
        while i < self.0.len()
            invariant
                i <= self.0.len(),
                out@ == messages_text(self.0@.take(i as int)),
            decreases self.0.len() - i,
        {
            append_message(&mut out, &self.0[i]);
            assert(self.0@.take(i + 1).drop_last() =~= self.0@.take(i as int));
            i = i + 1;
        }
        assert(self.0@.take(i as int) =~= self.0@);
        out
    }
}

/// The untokenized context that a chat model continues: the conversation, then the
/// assistant's tag.
pub fn chat_prompt(messages: &ChatMessages) -> (r: String)
    ensures
        r@ == messages_text(messages.0@) + "<|ASSISTANT|>"@,
{
    let mut s = messages.to_text();
    s.append("<|ASSISTANT|>");
    s
}

/// The model name or repository configured for an endpoint, without surrounding white
/// space, or nothing when none is configured. The name that a request declares is ignored.
pub fn configured_model(raw: &str) -> (r: Option<String>)
    ensures
        trimmed_of(raw@).len() == 0 ==> r is None,
        trimmed_of(raw@).len() != 0 ==> (r matches Some(s) && s@ == trimmed_of(raw@)),
{
    let t = trim(raw);
    if t.is_empty() {
        None
    } else {
        Some(t.to_owned())
    }
}

/// Resolves the chat model from the configured name: an empty one is no model.
pub fn resolve_chat_model(raw_name: &str) -> (r: Result<String, ChatCompletionError>)
    ensures
        trimmed_of(raw_name@).len() == 0 ==> (r matches Err(ChatCompletionError::NoSuchModel {
            model_name,
        }) && model_name@.len() == 0),
        trimmed_of(raw_name@).len() != 0 ==> (r matches Ok(s) && s@ == trimmed_of(raw_name@)),
{
    match configured_model(raw_name) {
        Some(s) => Ok(s),
        None => Err(ChatCompletionError::NoSuchModel { model_name: String::new() }),
    }
}

/// How a failed preload reaches a chat client: as no such model, under the configured name.
pub fn chat_preload_outcome(model_name: &str, preloaded: Result<(), ModelError>) -> (r: Result<
    (),
    ChatCompletionError,
>)
    ensures
        preloaded is Ok ==> r is Ok,
        preloaded is Err ==> (r matches Err(ChatCompletionError::NoSuchModel { model_name: n })
            && n@ == model_name@),
{
    match preloaded {
        Ok(()) => Ok(()),
        Err(_) => Err(ChatCompletionError::NoSuchModel { model_name: model_name.to_owned() }),
    }
}

/// How a missing or failed model reaches a transcription client: as a file that is not
/// found, under the configured name.
pub fn transcription_model_error(model_name: &str) -> (r: ModelError)
    ensures
        r matches ModelError::FileNotFound(n) && n@ == model_name@,
{
    ModelError::FileNotFound(model_name.to_owned())
}

/// The single choice of a streamed chunk that carries `chunk` as new content.
pub fn chunk_choice(chunk: String) -> (r: ChatCompletionChunkChoice)
    ensures
        r.index == 0,
        r.finish_reason is None,
        r.delta.role is None,
        r.delta.content == Some(chunk),
{
    ChatCompletionChunkChoice {
        delta: ChatCompletionChunkDelta { content: Some(chunk), role: None },
        finish_reason: None,
        index: 0,
    }
}

/// The stop phrases of a request: one, or a list.
#[derive(Debug)]
pub enum StopWords {
    One(String),
    Many(Vec<String>),
}

/// The stop phrases that the response stream is filtered with: none when the request
/// names none.
pub fn stop_words_of(stop: Option<StopWords>) -> (r: Vec<String>)
    ensures
        match stop {
            None => r.deep_view() == Seq::<Seq<char>>::empty(),
            Some(StopWords::One(s)) => r.deep_view() == seq![s@],
            Some(StopWords::Many(v)) => r.deep_view() == v.deep_view(),
        },
{
    match stop {
        None => {
            let r: Vec<String> = Vec::new();
            assert(r.deep_view() =~= Seq::<Seq<char>>::empty());
            r
        },
        Some(StopWords::One(s)) => {
            let ghost sv = s@;
            let r = vec![s];
            assert(r.deep_view() =~= seq![sv]);
            r
        },
        Some(StopWords::Many(v)) => v,
    }
}

/// Frames one emitted chunk of text as a streamed event, under a fresh identifier `id`,
/// the creation time `created` and the build fingerprint.
pub fn frame_chunk(chunk: String, id: String, created: i64, fingerprint: String) -> (r:
    ChatCompletionChunk)
    ensures
        r.id == id,
        r.created == created,
        r.system_fingerprint == fingerprint,
        r.model@ == "main"@,
        r.object@ == "text_completion"@,
        r.choices@.len() == 1,
        r.choices@[0].index == 0,
        r.choices@[0].finish_reason is None,
        r.choices@[0].delta.role is None,
        r.choices@[0].delta.content == Some(chunk),
{
    let choice = chunk_choice(chunk);
    let choices = vec![choice];
    ChatCompletionChunk {
        id,
        choices,
        created,
        model: String::from_str("main"),
        system_fingerprint: fingerprint,
        object: String::from_str("text_completion"),
    }
}

} // verus!
